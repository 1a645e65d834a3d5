use vstd::prelude::*;

verus! {

/// The registers an Intel 8080 instruction can name (`M` is the memory cell
/// that `HL` points to, `Psw` the accumulator with the flags).
#[derive(Clone, Copy, Debug, PartialEq, Eq, Structural)]
pub enum Register {
    A,
    B,
    C,
    D,
    E,
    H,
    L,
    M,
    Sp,
    Psw,
}

/// An Intel 8080 instruction; addresses are kept as their two bytes, low
/// byte first.
#[derive(Clone, Copy, Debug)]
pub enum Instruction {
    Noop,
    Lxi { register: Register, low_byte: u8, high_byte: u8 },
    Stax { register: Register },
    Inx { register: Register },
    Inr { register: Register },
    Dcr { register: Register },
    Mvi { register: Register, byte: u8 },
    Rlc,
    Dad { register: Register },
    Ldax { register: Register },
    Dcx { register: Register },
    Rrc,
    Ral,
    Rar,
    Rim,
    Shld { address: [u8; 2] },
    Daa,
    Lhld { address: [u8; 2] },
    Cma,
    Sim,
    Sta { address: [u8; 2] },
    Lda { address: [u8; 2] },
    Stc,
    Cmc,
    Mov { source: Register, destiny: Register },
    Add { register: Register },
    Adc { register: Register },
    Sub { register: Register },
    Sbb { register: Register },
    Ana { register: Register },
    Xra { register: Register },
    Ora { register: Register },
    Cmp { register: Register },
    Rnz,
    Pop { register: Register },
    Jnz { address: [u8; 2] },
    Jmp { address: [u8; 2] },
    Cnz { address: [u8; 2] },
    Push { register: Register },
    Adi { byte: u8 },
    Rst { value: u8 },
    Rz,
    Ret,
    Jz { address: [u8; 2] },
    Cz { address: [u8; 2] },
    Call { address: [u8; 2] },
    Aci { byte: u8 },
    Rnc,
    Jnc { address: [u8; 2] },
    Out { byte: u8 },
    Cnc { address: [u8; 2] },
    Sui { byte: u8 },
    Rc,
    Jc { address: [u8; 2] },
    In { byte: u8 },
    Cc { address: [u8; 2] },
    Sbi { byte: u8 },
    Rpo,
    Jpo { address: [u8; 2] },
    Xthl,
    Cpo { address: [u8; 2] },
    Ani { byte: u8 },
    Rpe,
    Pchl,
    Jpe { address: [u8; 2] },
    Xchg,
    Cpe { address: [u8; 2] },
    Xri { byte: u8 },
    Rp,
    Jp { address: [u8; 2] },
    Di,
    Cp { address: [u8; 2] },
    Ori { byte: u8 },
    Rm,
    Sphl,
    Jm { address: [u8; 2] },
    El,
    Cm { address: [u8; 2] },
    Cpi { byte: u8 },
}

/// How many bytes after the opcode the decoder reads.
pub open spec fn bytes_read_after(code: u8) -> nat {
    if code == 0x01 || code == 0x11 || code == 0x21 || code == 0x22 || code == 0x2a || code == 0x31 || code == 0x32 || code == 0x3a || code == 0xc2 || code == 0xc3 || code == 0xc4 || code == 0xca || code == 0xcc || code == 0xcd || code == 0xd2 || code == 0xd4 || code == 0xda || code == 0xdc || code == 0xe2 || code == 0xe4 || code == 0xea || code == 0xec || code == 0xf2 || code == 0xf4 || code == 0xfa || code == 0xfc {
        2
    } else if code == 0x06 || code == 0x0e || code == 0x16 || code == 0x1e || code == 0x26 || code == 0x2e || code == 0x36 || code == 0x3e || code == 0xc6 || code == 0xce || code == 0xd3 || code == 0xd6 || code == 0xdb || code == 0xde || code == 0xe6 || code == 0xee || code == 0xf6 || code == 0xfe {
        1
    } else {
        0
    }
}

/// The register that a three-bit field of an opcode names.
pub open spec fn register_of(field: int) -> Register {
    if field == 0 {
        Register::B
    } else if field == 1 {
        Register::C
    } else if field == 2 {
        Register::D
    } else if field == 3 {
        Register::E
    } else if field == 4 {
        Register::H
    } else if field == 5 {
        Register::L
    } else if field == 6 {
        Register::M
    } else {
        Register::A
    }
}

/// The arithmetic or logic instruction that bits 3 to 5 of an opcode from
/// 0x80 to 0xBF name, applied to `register`.
pub open spec fn alu_instruction(operation: int, register: Register) -> Instruction {
    if operation == 0 {
        Instruction::Add { register }
    } else if operation == 1 {
        Instruction::Adc { register }
    } else if operation == 2 {
        Instruction::Sub { register }
    } else if operation == 3 {
        Instruction::Sbb { register }
    } else if operation == 4 {
        Instruction::Ana { register }
    } else if operation == 5 {
        Instruction::Xra { register }
    } else if operation == 6 {
        Instruction::Ora { register }
    } else {
        Instruction::Cmp { register }
    }
}

/// The instruction that starts with opcode `code`, followed by `b1` and
/// `b2`, and the number of bytes the decoder then skips: from 0x40 to 0x7F
/// a move between the registers that bits 3 to 5 and bits 0 to 2 name, from
/// 0x80 to 0xBF an arithmetic or logic operation on the register that bits
/// 0 to 2 name. Unknown opcodes decode as `Noop`.
pub open spec fn decoded(code: u8, b1: u8, b2: u8) -> (Instruction, u8) {
    if 0x40 <= code < 0x80 {
        (Instruction::Mov { source: register_of((code as int / 8) % 8), destiny: register_of(code as int % 8) }, 0)
    } else if 0x80 <= code < 0xC0 {
        (alu_instruction((code as int / 8) % 8, register_of(code as int % 8)), 0)
    } else {
    match code {
        0x00 => (Instruction::Noop, 0),
        0x01 => (Instruction::Lxi { register: Register::B, low_byte: b1, high_byte: b2 }, 2),
        0x02 => (Instruction::Stax { register: Register::B }, 0),
        0x03 => (Instruction::Inx { register: Register::B }, 0),
        0x04 => (Instruction::Inr { register: Register::B }, 0),
        0x05 => (Instruction::Dcr { register: Register::B }, 0),
        0x06 => (Instruction::Mvi { register: Register::B, byte: b1 }, 1),
        0x07 => (Instruction::Rlc, 0),
        0x09 => (Instruction::Dad { register: Register::B }, 0),
        0x0a => (Instruction::Ldax { register: Register::B }, 0),
        0x0b => (Instruction::Dcx { register: Register::B }, 0),
        0x0c => (Instruction::Inr { register: Register::C }, 0),
        0x0d => (Instruction::Dcr { register: Register::C }, 0),
        0x0e => (Instruction::Mvi { register: Register::C, byte: b1 }, 1),
        0x0f => (Instruction::Rrc, 0),
        0x11 => (Instruction::Lxi { register: Register::D, low_byte: b1, high_byte: b2 }, 2),
        0x12 => (Instruction::Stax { register: Register::D }, 0),
        0x13 => (Instruction::Inx { register: Register::D }, 0),
        0x14 => (Instruction::Inr { register: Register::D }, 0),
        0x15 => (Instruction::Dcr { register: Register::D }, 0),
        0x16 => (Instruction::Mvi { register: Register::D, byte: b1 }, 1),
        0x17 => (Instruction::Ral, 0),
        0x19 => (Instruction::Dad { register: Register::D }, 0),
        0x1a => (Instruction::Ldax { register: Register::D }, 0),
        0x1b => (Instruction::Dcx { register: Register::D }, 0),
        0x1c => (Instruction::Inr { register: Register::E }, 0),
        0x1d => (Instruction::Dcr { register: Register::E }, 0),
        0x1e => (Instruction::Mvi { register: Register::E, byte: b1 }, 1),
        0x1f => (Instruction::Rar, 0),
        0x20 => (Instruction::Rim, 0),
        0x21 => (Instruction::Lxi { register: Register::H, low_byte: b1, high_byte: b2 }, 2),
        0x22 => (Instruction::Shld { address: [b1, b2] }, 2),
        0x23 => (Instruction::Inx { register: Register::H }, 0),
        0x24 => (Instruction::Inr { register: Register::H }, 0),
        0x25 => (Instruction::Dcr { register: Register::H }, 0),
        0x26 => (Instruction::Mvi { register: Register::H, byte: b1 }, 1),
        0x27 => (Instruction::Daa, 0),
        0x29 => (Instruction::Dad { register: Register::H }, 0),
        0x2a => (Instruction::Lhld { address: [b1, b2] }, 2),
        0x2b => (Instruction::Dcx { register: Register::H }, 0),
        0x2c => (Instruction::Inr { register: Register::L }, 0),
        0x2d => (Instruction::Dcx { register: Register::L }, 0),
        0x2e => (Instruction::Mvi { register: Register::L, byte: b1 }, 1),
        0x2f => (Instruction::Cma, 0),
        0x30 => (Instruction::Sim, 0),
        0x31 => (Instruction::Lxi { register: Register::Sp, low_byte: b1, high_byte: b2 }, 2),
        0x32 => (Instruction::Sta { address: [b1, b2] }, 2),
        0x33 => (Instruction::Inx { register: Register::Sp }, 0),
        0x34 => (Instruction::Inr { register: Register::M }, 0),
        0x35 => (Instruction::Dcr { register: Register::M }, 0),
        0x36 => (Instruction::Mvi { register: Register::M, byte: b1 }, 1),
        0x37 => (Instruction::Stc, 0),
        0x39 => (Instruction::Dad { register: Register::Sp }, 0),
        0x3a => (Instruction::Lda { address: [b1, b2] }, 2),
        0x3b => (Instruction::Dcx { register: Register::Sp }, 0),
        0x3c => (Instruction::Inr { register: Register::A }, 0),
        0x3d => (Instruction::Dcx { register: Register::A }, 0),
        0x3e => (Instruction::Mvi { register: Register::A, byte: b1 }, 1),
        0x3f => (Instruction::Cmc, 0),
        0xc0 => (Instruction::Rnz, 0),
        0xc1 => (Instruction::Pop { register: Register::B }, 0),
        0xc2 => (Instruction::Jnz { address: [b1, b2] }, 2),
        0xc3 => (Instruction::Jmp { address: [b1, b2] }, 2),
        0xc4 => (Instruction::Cnz { address: [b1, b2] }, 2),
        0xc5 => (Instruction::Push { register: Register::B }, 0),
        0xc6 => (Instruction::Adi { byte: b1 }, 1),
        0xc7 => (Instruction::Rst { value: 1 }, 0),
        0xc8 => (Instruction::Rz, 0),
        0xc9 => (Instruction::Ret, 0),
        0xca => (Instruction::Jz { address: [b1, b2] }, 2),
        0xcc => (Instruction::Cz { address: [b1, b2] }, 2),
        0xcd => (Instruction::Call { address: [b1, b2] }, 2),
        0xce => (Instruction::Aci { byte: b1 }, 1),
        0xcf => (Instruction::Rst { value: 1 }, 0),
        0xd0 => (Instruction::Rnc, 0),
        0xd1 => (Instruction::Pop { register: Register::D }, 0),
        0xd2 => (Instruction::Jnc { address: [b1, b2] }, 2),
        0xd3 => (Instruction::Out { byte: b1 }, 1),
        0xd4 => (Instruction::Cnc { address: [b1, b2] }, 2),
        0xd5 => (Instruction::Push { register: Register::D }, 0),
        0xd6 => (Instruction::Sui { byte: b1 }, 1),
        0xd7 => (Instruction::Rst { value: 2 }, 0),
        0xd8 => (Instruction::Rc, 0),
        0xda => (Instruction::Jc { address: [b1, b2] }, 1),
        0xdb => (Instruction::In { byte: b1 }, 1),
        0xdc => (Instruction::Cc { address: [b1, b2] }, 1),
        0xde => (Instruction::Sbi { byte: b1 }, 1),
        0xdf => (Instruction::Rst { value: 3 }, 0),
        0xe0 => (Instruction::Rpo, 0),
        0xe1 => (Instruction::Pop { register: Register::H }, 0),
        0xe2 => (Instruction::Jpo { address: [b1, b2] }, 2),
        0xe3 => (Instruction::Xthl, 0),
        0xe4 => (Instruction::Cpo { address: [b1, b2] }, 2),
        0xe5 => (Instruction::Push { register: Register::H }, 0),
        0xe6 => (Instruction::Ani { byte: b1 }, 1),
        0xe7 => (Instruction::Rst { value: 4 }, 0),
        0xe8 => (Instruction::Rpe, 0),
        0xe9 => (Instruction::Pchl, 0),
        0xea => (Instruction::Jpe { address: [b1, b2] }, 2),
        0xeb => (Instruction::Xchg, 0),
        0xec => (Instruction::Cpe { address: [b1, b2] }, 2),
        0xee => (Instruction::Xri { byte: b1 }, 1),
        0xef => (Instruction::Rst { value: 5 }, 0),
        0xf0 => (Instruction::Rp, 0),
        0xf1 => (Instruction::Pop { register: Register::Psw }, 0),
        0xf2 => (Instruction::Jp { address: [b1, b2] }, 2),
        0xf3 => (Instruction::Di, 0),
        0xf4 => (Instruction::Cp { address: [b1, b2] }, 2),
        0xf5 => (Instruction::Push { register: Register::Psw }, 0),
        0xf6 => (Instruction::Ori { byte: b1 }, 1),
        0xf7 => (Instruction::Rst { value: 6 }, 0),
        0xf8 => (Instruction::Rm, 0),
        0xf9 => (Instruction::Sphl, 0),
        0xfa => (Instruction::Jm { address: [b1, b2] }, 2),
        0xfb => (Instruction::El, 0),
        0xfc => (Instruction::Cm { address: [b1, b2] }, 2),
        0xfe => (Instruction::Cpi { byte: b1 }, 1),
        0xff => (Instruction::Rst { value: 7 }, 0),
        _ => (Instruction::Noop, 0),
    }
    }
}

/// The instruction at the front of `bytes`, with the number of bytes the
/// decoder skips after it.
pub open spec fn decode_front(bytes: Seq<u8>) -> (Instruction, u8) {
    decoded(
        bytes[0],
        if bytes.len() > 1 { bytes[1] } else { 0 },
        if bytes.len() > 2 { bytes[2] } else { 0 },
    )
}

/// Decodes the instruction at the front of `bytes` and returns it with the
/// number of bytes that follow its opcode and are to be skipped.
pub fn get_instruction(bytes: &[u8]) -> (r: Result<(Instruction, u8), String>)
    requires
        bytes@.len() >= 1 + bytes_read_after(bytes@[0]),
    ensures
        r == Ok::<(Instruction, u8), String>(decode_front(bytes@)),
{
    match bytes[0] {
        0x00 => Ok((Instruction::Noop, 0)),
        0x01 => Ok((Instruction::Lxi { register: Register::B, low_byte: bytes[1], high_byte: bytes[2] }, 2)),
        0x02 => Ok((Instruction::Stax { register: Register::B }, 0)),
        0x03 => Ok((Instruction::Inx { register: Register::B }, 0)),
        0x04 => Ok((Instruction::Inr { register: Register::B }, 0)),
        0x05 => Ok((Instruction::Dcr { register: Register::B }, 0)),
        0x06 => Ok((Instruction::Mvi { register: Register::B, byte: bytes[1] }, 1)),
        0x07 => Ok((Instruction::Rlc, 0)),
        0x09 => Ok((Instruction::Dad { register: Register::B }, 0)),
        0x0a => Ok((Instruction::Ldax { register: Register::B }, 0)),
        0x0b => Ok((Instruction::Dcx { register: Register::B }, 0)),
        0x0c => Ok((Instruction::Inr { register: Register::C }, 0)),
        0x0d => Ok((Instruction::Dcr { register: Register::C }, 0)),
        0x0e => Ok((Instruction::Mvi { register: Register::C, byte: bytes[1] }, 1)),
        0x0f => Ok((Instruction::Rrc, 0)),
        0x11 => Ok((Instruction::Lxi { register: Register::D, low_byte: bytes[1], high_byte: bytes[2] }, 2)),
        0x12 => Ok((Instruction::Stax { register: Register::D }, 0)),
        0x13 => Ok((Instruction::Inx { register: Register::D }, 0)),
        0x14 => Ok((Instruction::Inr { register: Register::D }, 0)),
        0x15 => Ok((Instruction::Dcr { register: Register::D }, 0)),
        0x16 => Ok((Instruction::Mvi { register: Register::D, byte: bytes[1] }, 1)),
        0x17 => Ok((Instruction::Ral, 0)),
        0x19 => Ok((Instruction::Dad { register: Register::D }, 0)),
        0x1a => Ok((Instruction::Ldax { register: Register::D }, 0)),
        0x1b => Ok((Instruction::Dcx { register: Register::D }, 0)),
        0x1c => Ok((Instruction::Inr { register: Register::E }, 0)),
        0x1d => Ok((Instruction::Dcr { register: Register::E }, 0)),
        0x1e => Ok((Instruction::Mvi { register: Register::E, byte: bytes[1] }, 1)),
        0x1f => Ok((Instruction::Rar, 0)),
        0x20 => Ok((Instruction::Rim, 0)),
        0x21 => Ok((Instruction::Lxi { register: Register::H, low_byte: bytes[1], high_byte: bytes[2] }, 2)),
        0x22 => Ok((Instruction::Shld { address: [bytes[1], bytes[2]] }, 2)),
        0x23 => Ok((Instruction::Inx { register: Register::H }, 0)),
        0x24 => Ok((Instruction::Inr { register: Register::H }, 0)),
        0x25 => Ok((Instruction::Dcr { register: Register::H }, 0)),
        0x26 => Ok((Instruction::Mvi { register: Register::H, byte: bytes[1] }, 1)),
        0x27 => Ok((Instruction::Daa, 0)),
        0x29 => Ok((Instruction::Dad { register: Register::H }, 0)),
        0x2a => Ok((Instruction::Lhld { address: [bytes[1], bytes[2]] }, 2)),
        0x2b => Ok((Instruction::Dcx { register: Register::H }, 0)),
        0x2c => Ok((Instruction::Inr { register: Register::L }, 0)),
        0x2d => Ok((Instruction::Dcx { register: Register::L }, 0)),
        0x2e => Ok((Instruction::Mvi { register: Register::L, byte: bytes[1] }, 1)),
        0x2f => Ok((Instruction::Cma, 0)),
        0x30 => Ok((Instruction::Sim, 0)),
        0x31 => Ok((Instruction::Lxi { register: Register::Sp, low_byte: bytes[1], high_byte: bytes[2] }, 2)),
        0x32 => Ok((Instruction::Sta { address: [bytes[1], bytes[2]] }, 2)),
        0x33 => Ok((Instruction::Inx { register: Register::Sp }, 0)),
        0x34 => Ok((Instruction::Inr { register: Register::M }, 0)),
        0x35 => Ok((Instruction::Dcr { register: Register::M }, 0)),
        0x36 => Ok((Instruction::Mvi { register: Register::M, byte: bytes[1] }, 1)),
        0x37 => Ok((Instruction::Stc, 0)),
        0x39 => Ok((Instruction::Dad { register: Register::Sp }, 0)),
        0x3a => Ok((Instruction::Lda { address: [bytes[1], bytes[2]] }, 2)),
        0x3b => Ok((Instruction::Dcx { register: Register::Sp }, 0)),
        0x3c => Ok((Instruction::Inr { register: Register::A }, 0)),
        0x3d => Ok((Instruction::Dcx { register: Register::A }, 0)),
        0x3e => Ok((Instruction::Mvi { register: Register::A, byte: bytes[1] }, 1)),
        0x3f => Ok((Instruction::Cmc, 0)),
        0x40 => Ok((Instruction::Mov { source: Register::B, destiny: Register::B }, 0)),
        0x41 => Ok((Instruction::Mov { source: Register::B, destiny: Register::C }, 0)),
        0x42 => Ok((Instruction::Mov { source: Register::B, destiny: Register::D }, 0)),
        0x43 => Ok((Instruction::Mov { source: Register::B, destiny: Register::E }, 0)),
        0x44 => Ok((Instruction::Mov { source: Register::B, destiny: Register::H }, 0)),
        0x45 => Ok((Instruction::Mov { source: Register::B, destiny: Register::L }, 0)),
        0x46 => Ok((Instruction::Mov { source: Register::B, destiny: Register::M }, 0)),
        0x47 => Ok((Instruction::Mov { source: Register::B, destiny: Register::A }, 0)),
        0x48 => Ok((Instruction::Mov { source: Register::C, destiny: Register::B }, 0)),
        0x49 => Ok((Instruction::Mov { source: Register::C, destiny: Register::C }, 0)),
        0x4a => Ok((Instruction::Mov { source: Register::C, destiny: Register::D }, 0)),
        0x4b => Ok((Instruction::Mov { source: Register::C, destiny: Register::E }, 0)),
        0x4c => Ok((Instruction::Mov { source: Register::C, destiny: Register::H }, 0)),
        0x4d => Ok((Instruction::Mov { source: Register::C, destiny: Register::L }, 0)),
        0x4e => Ok((Instruction::Mov { source: Register::C, destiny: Register::M }, 0)),
        0x4f => Ok((Instruction::Mov { source: Register::C, destiny: Register::A }, 0)),
        0x50 => Ok((Instruction::Mov { source: Register::D, destiny: Register::B }, 0)),
        0x51 => Ok((Instruction::Mov { source: Register::D, destiny: Register::C }, 0)),
        0x52 => Ok((Instruction::Mov { source: Register::D, destiny: Register::D }, 0)),
        0x53 => Ok((Instruction::Mov { source: Register::D, destiny: Register::E }, 0)),
        0x54 => Ok((Instruction::Mov { source: Register::D, destiny: Register::H }, 0)),
        0x55 => Ok((Instruction::Mov { source: Register::D, destiny: Register::L }, 0)),
        0x56 => Ok((Instruction::Mov { source: Register::D, destiny: Register::M }, 0)),
        0x57 => Ok((Instruction::Mov { source: Register::D, destiny: Register::A }, 0)),
        0x58 => Ok((Instruction::Mov { source: Register::E, destiny: Register::B }, 0)),
        0x59 => Ok((Instruction::Mov { source: Register::E, destiny: Register::C }, 0)),
        0x5a => Ok((Instruction::Mov { source: Register::E, destiny: Register::D }, 0)),
        0x5b => Ok((Instruction::Mov { source: Register::E, destiny: Register::E }, 0)),
        0x5c => Ok((Instruction::Mov { source: Register::E, destiny: Register::H }, 0)),
        0x5d => Ok((Instruction::Mov { source: Register::E, destiny: Register::L }, 0)),
        0x5e => Ok((Instruction::Mov { source: Register::E, destiny: Register::M }, 0)),
        0x5f => Ok((Instruction::Mov { source: Register::E, destiny: Register::A }, 0)),
        0x60 => Ok((Instruction::Mov { source: Register::H, destiny: Register::B }, 0)),
        0x61 => Ok((Instruction::Mov { source: Register::H, destiny: Register::C }, 0)),
        0x62 => Ok((Instruction::Mov { source: Register::H, destiny: Register::D }, 0)),
        0x63 => Ok((Instruction::Mov { source: Register::H, destiny: Register::E }, 0)),
        0x64 => Ok((Instruction::Mov { source: Register::H, destiny: Register::H }, 0)),
        0x65 => Ok((Instruction::Mov { source: Register::H, destiny: Register::L }, 0)),
        0x66 => Ok((Instruction::Mov { source: Register::H, destiny: Register::M }, 0)),
        0x67 => Ok((Instruction::Mov { source: Register::H, destiny: Register::A }, 0)),
        0x68 => Ok((Instruction::Mov { source: Register::L, destiny: Register::B }, 0)),
        0x69 => Ok((Instruction::Mov { source: Register::L, destiny: Register::C }, 0)),
        0x6a => Ok((Instruction::Mov { source: Register::L, destiny: Register::D }, 0)),
        0x6b => Ok((Instruction::Mov { source: Register::L, destiny: Register::E }, 0)),
        0x6c => Ok((Instruction::Mov { source: Register::L, destiny: Register::H }, 0)),
        0x6d => Ok((Instruction::Mov { source: Register::L, destiny: Register::L }, 0)),
        0x6e => Ok((Instruction::Mov { source: Register::L, destiny: Register::M }, 0)),
        0x6f => Ok((Instruction::Mov { source: Register::L, destiny: Register::A }, 0)),
        0x70 => Ok((Instruction::Mov { source: Register::M, destiny: Register::B }, 0)),
        0x71 => Ok((Instruction::Mov { source: Register::M, destiny: Register::C }, 0)),
        0x72 => Ok((Instruction::Mov { source: Register::M, destiny: Register::D }, 0)),
        0x73 => Ok((Instruction::Mov { source: Register::M, destiny: Register::E }, 0)),
        0x74 => Ok((Instruction::Mov { source: Register::M, destiny: Register::H }, 0)),
        0x75 => Ok((Instruction::Mov { source: Register::M, destiny: Register::L }, 0)),
        0x76 => Ok((Instruction::Mov { source: Register::M, destiny: Register::M }, 0)),
        0x77 => Ok((Instruction::Mov { source: Register::M, destiny: Register::A }, 0)),
        0x78 => Ok((Instruction::Mov { source: Register::A, destiny: Register::B }, 0)),
        0x79 => Ok((Instruction::Mov { source: Register::A, destiny: Register::C }, 0)),
        0x7a => Ok((Instruction::Mov { source: Register::A, destiny: Register::D }, 0)),
        0x7b => Ok((Instruction::Mov { source: Register::A, destiny: Register::E }, 0)),
        0x7c => Ok((Instruction::Mov { source: Register::A, destiny: Register::H }, 0)),
        0x7d => Ok((Instruction::Mov { source: Register::A, destiny: Register::L }, 0)),
        0x7e => Ok((Instruction::Mov { source: Register::A, destiny: Register::M }, 0)),
        0x7f => Ok((Instruction::Mov { source: Register::A, destiny: Register::A }, 0)),
        0x80 => Ok((Instruction::Add { register: Register::B }, 0)),
        0x81 => Ok((Instruction::Add { register: Register::C }, 0)),
        0x82 => Ok((Instruction::Add { register: Register::D }, 0)),
        0x83 => Ok((Instruction::Add { register: Register::E }, 0)),
        0x84 => Ok((Instruction::Add { register: Register::H }, 0)),
        0x85 => Ok((Instruction::Add { register: Register::L }, 0)),
        0x86 => Ok((Instruction::Add { register: Register::M }, 0)),
        0x87 => Ok((Instruction::Add { register: Register::A }, 0)),
        0x88 => Ok((Instruction::Adc { register: Register::B }, 0)),
        0x89 => Ok((Instruction::Adc { register: Register::C }, 0)),
        0x8a => Ok((Instruction::Adc { register: Register::D }, 0)),
        0x8b => Ok((Instruction::Adc { register: Register::E }, 0)),
        0x8c => Ok((Instruction::Adc { register: Register::H }, 0)),
        0x8d => Ok((Instruction::Adc { register: Register::L }, 0)),
        0x8e => Ok((Instruction::Adc { register: Register::M }, 0)),
        0x8f => Ok((Instruction::Adc { register: Register::A }, 0)),
        0x90 => Ok((Instruction::Sub { register: Register::B }, 0)),
        0x91 => Ok((Instruction::Sub { register: Register::C }, 0)),
        0x92 => Ok((Instruction::Sub { register: Register::D }, 0)),
        0x93 => Ok((Instruction::Sub { register: Register::E }, 0)),
        0x94 => Ok((Instruction::Sub { register: Register::H }, 0)),
        0x95 => Ok((Instruction::Sub { register: Register::L }, 0)),
        0x96 => Ok((Instruction::Sub { register: Register::M }, 0)),
        0x97 => Ok((Instruction::Sub { register: Register::A }, 0)),
        0x98 => Ok((Instruction::Sbb { register: Register::B }, 0)),
        0x99 => Ok((Instruction::Sbb { register: Register::C }, 0)),
        0x9a => Ok((Instruction::Sbb { register: Register::D }, 0)),
        0x9b => Ok((Instruction::Sbb { register: Register::E }, 0)),
        0x9c => Ok((Instruction::Sbb { register: Register::H }, 0)),
        0x9d => Ok((Instruction::Sbb { register: Register::L }, 0)),
        0x9e => Ok((Instruction::Sbb { register: Register::M }, 0)),
        0x9f => Ok((Instruction::Sbb { register: Register::A }, 0)),
        0xa0 => Ok((Instruction::Ana { register: Register::B }, 0)),
        0xa1 => Ok((Instruction::Ana { register: Register::C }, 0)),
        0xa2 => Ok((Instruction::Ana { register: Register::D }, 0)),
        0xa3 => Ok((Instruction::Ana { register: Register::E }, 0)),
        0xa4 => Ok((Instruction::Ana { register: Register::H }, 0)),
        0xa5 => Ok((Instruction::Ana { register: Register::L }, 0)),
        0xa6 => Ok((Instruction::Ana { register: Register::M }, 0)),
        0xa7 => Ok((Instruction::Ana { register: Register::A }, 0)),
        0xa8 => Ok((Instruction::Xra { register: Register::B }, 0)),
        0xa9 => Ok((Instruction::Xra { register: Register::C }, 0)),
        0xaa => Ok((Instruction::Xra { register: Register::D }, 0)),
        0xab => Ok((Instruction::Xra { register: Register::E }, 0)),
        0xac => Ok((Instruction::Xra { register: Register::H }, 0)),
        0xad => Ok((Instruction::Xra { register: Register::L }, 0)),
        0xae => Ok((Instruction::Xra { register: Register::M }, 0)),
        0xaf => Ok((Instruction::Xra { register: Register::A }, 0)),
        0xb0 => Ok((Instruction::Ora { register: Register::B }, 0)),
        0xb1 => Ok((Instruction::Ora { register: Register::C }, 0)),
        0xb2 => Ok((Instruction::Ora { register: Register::D }, 0)),
        0xb3 => Ok((Instruction::Ora { register: Register::E }, 0)),
        0xb4 => Ok((Instruction::Ora { register: Register::H }, 0)),
        0xb5 => Ok((Instruction::Ora { register: Register::L }, 0)),
        0xb6 => Ok((Instruction::Ora { register: Register::M }, 0)),
        0xb7 => Ok((Instruction::Ora { register: Register::A }, 0)),
        0xb8 => Ok((Instruction::Cmp { register: Register::B }, 0)),
        0xb9 => Ok((Instruction::Cmp { register: Register::C }, 0)),
        0xba => Ok((Instruction::Cmp { register: Register::D }, 0)),
        0xbb => Ok((Instruction::Cmp { register: Register::E }, 0)),
        0xbc => Ok((Instruction::Cmp { register: Register::H }, 0)),
        0xbd => Ok((Instruction::Cmp { register: Register::L }, 0)),
        0xbe => Ok((Instruction::Cmp { register: Register::M }, 0)),
        0xbf => Ok((Instruction::Cmp { register: Register::A }, 0)),
        0xc0 => Ok((Instruction::Rnz, 0)),
        0xc1 => Ok((Instruction::Pop { register: Register::B }, 0)),
        0xc2 => Ok((Instruction::Jnz { address: [bytes[1], bytes[2]] }, 2)),
        0xc3 => Ok((Instruction::Jmp { address: [bytes[1], bytes[2]] }, 2)),
        0xc4 => Ok((Instruction::Cnz { address: [bytes[1], bytes[2]] }, 2)),
        0xc5 => Ok((Instruction::Push { register: Register::B }, 0)),
        0xc6 => Ok((Instruction::Adi { byte: bytes[1] }, 1)),
        0xc7 => Ok((Instruction::Rst { value: 1 }, 0)),
        0xc8 => Ok((Instruction::Rz, 0)),
        0xc9 => Ok((Instruction::Ret, 0)),
        0xca => Ok((Instruction::Jz { address: [bytes[1], bytes[2]] }, 2)),
        0xcc => Ok((Instruction::Cz { address: [bytes[1], bytes[2]] }, 2)),
        0xcd => Ok((Instruction::Call { address: [bytes[1], bytes[2]] }, 2)),
        0xce => Ok((Instruction::Aci { byte: bytes[1] }, 1)),
        0xcf => Ok((Instruction::Rst { value: 1 }, 0)),
        0xd0 => Ok((Instruction::Rnc, 0)),
        0xd1 => Ok((Instruction::Pop { register: Register::D }, 0)),
        0xd2 => Ok((Instruction::Jnc { address: [bytes[1], bytes[2]] }, 2)),
        0xd3 => Ok((Instruction::Out { byte: bytes[1] }, 1)),
        0xd4 => Ok((Instruction::Cnc { address: [bytes[1], bytes[2]] }, 2)),
        0xd5 => Ok((Instruction::Push { register: Register::D }, 0)),
        0xd6 => Ok((Instruction::Sui { byte: bytes[1] }, 1)),
        0xd7 => Ok((Instruction::Rst { value: 2 }, 0)),
        0xd8 => Ok((Instruction::Rc, 0)),
        0xda => Ok((Instruction::Jc { address: [bytes[1], bytes[2]] }, 1)),
        0xdb => Ok((Instruction::In { byte: bytes[1] }, 1)),
        0xdc => Ok((Instruction::Cc { address: [bytes[1], bytes[2]] }, 1)),
        0xde => Ok((Instruction::Sbi { byte: bytes[1] }, 1)),
        0xdf => Ok((Instruction::Rst { value: 3 }, 0)),
        0xe0 => Ok((Instruction::Rpo, 0)),
        0xe1 => Ok((Instruction::Pop { register: Register::H }, 0)),
        0xe2 => Ok((Instruction::Jpo { address: [bytes[1], bytes[2]] }, 2)),
        0xe3 => Ok((Instruction::Xthl, 0)),
        0xe4 => Ok((Instruction::Cpo { address: [bytes[1], bytes[2]] }, 2)),
        0xe5 => Ok((Instruction::Push { register: Register::H }, 0)),
        0xe6 => Ok((Instruction::Ani { byte: bytes[1] }, 1)),
        0xe7 => Ok((Instruction::Rst { value: 4 }, 0)),
        0xe8 => Ok((Instruction::Rpe, 0)),
        0xe9 => Ok((Instruction::Pchl, 0)),
        0xea => Ok((Instruction::Jpe { address: [bytes[1], bytes[2]] }, 2)),
        0xeb => Ok((Instruction::Xchg, 0)),
        0xec => Ok((Instruction::Cpe { address: [bytes[1], bytes[2]] }, 2)),
        0xee => Ok((Instruction::Xri { byte: bytes[1] }, 1)),
        0xef => Ok((Instruction::Rst { value: 5 }, 0)),
        0xf0 => Ok((Instruction::Rp, 0)),
        0xf1 => Ok((Instruction::Pop { register: Register::Psw }, 0)),
        0xf2 => Ok((Instruction::Jp { address: [bytes[1], bytes[2]] }, 2)),
        0xf3 => Ok((Instruction::Di, 0)),
        0xf4 => Ok((Instruction::Cp { address: [bytes[1], bytes[2]] }, 2)),
        0xf5 => Ok((Instruction::Push { register: Register::Psw }, 0)),
        0xf6 => Ok((Instruction::Ori { byte: bytes[1] }, 1)),
        0xf7 => Ok((Instruction::Rst { value: 6 }, 0)),
        0xf8 => Ok((Instruction::Rm, 0)),
        0xf9 => Ok((Instruction::Sphl, 0)),
        0xfa => Ok((Instruction::Jm { address: [bytes[1], bytes[2]] }, 2)),
        0xfb => Ok((Instruction::El, 0)),
        0xfc => Ok((Instruction::Cm { address: [bytes[1], bytes[2]] }, 2)),
        0xfe => Ok((Instruction::Cpi { byte: bytes[1] }, 1)),
        0xff => Ok((Instruction::Rst { value: 7 }, 0)),
        _ => Ok((Instruction::Noop, 0)),
    }
}

/// The bytes from `index` on that the decoder looks at: at most three.
pub open spec fn window(bytes: Seq<u8>, index: int) -> Seq<u8> {
    bytes.subrange(index, if index + 3 < bytes.len() { index + 3 } else { bytes.len() as int })
}

/// Whether, walking `bytes` from `index` with `pass` bytes still to skip,
/// every instruction met has the bytes it reads.
pub open spec fn decodable_from(bytes: Seq<u8>, index: int, pass: int) -> bool
    decreases bytes.len() - index,
{
    if index < 0 || index >= bytes.len() {
        true
    } else if pass == 0 {
        window(bytes, index).len() >= 1 + bytes_read_after(bytes[index]) && decodable_from(
            bytes,
            index + 1,
            decode_front(window(bytes, index)).1 as int,
        )
    } else {
        decodable_from(bytes, index + 1, pass - 1)
    }
}

/// The instructions met walking `bytes` from `index` with `pass` bytes
/// still to skip.
pub open spec fn decode_from(bytes: Seq<u8>, index: int, pass: int) -> Seq<Instruction>
    decreases bytes.len() - index,
{
    if index < 0 || index >= bytes.len() {
        Seq::empty()
    } else if pass == 0 {
        seq![decode_front(window(bytes, index)).0] + decode_from(
            bytes,
            index + 1,
            decode_front(window(bytes, index)).1 as int,
        )
    } else {
        decode_from(bytes, index + 1, pass - 1)
    }
}

/// Disassembles a program. The result starts with one `Noop` per byte of
/// the program, followed by the decoded instructions.
pub fn get_instructions(bytes: Vec<u8>) -> (r: Result<Vec<Instruction>, String>)
    requires
        decodable_from(bytes@, 0, 0),
    ensures
        r matches Ok(instructions) && instructions@ == Seq::new(bytes@.len(), |_i: int| Instruction::Noop)
            + decode_from(bytes@, 0, 0),
{
    let mut result: Vec<Instruction> = Vec::new();
    let mut k: usize = 0;
    while k < bytes.len()
        invariant
            k <= bytes@.len(),
            result@ == Seq::new(k as nat, |_i: int| Instruction::Noop),
        decreases bytes@.len() - k,
    {
        result.push(Instruction::Noop);
        k = k + 1;
        assert(result@ =~= Seq::new(k as nat, |_i: int| Instruction::Noop));
    }
    let ghost prefix = result@;
    let mut pass: u8 = 0;
    let mut index: usize = 0;
    while index < bytes.len()
        invariant
            index <= bytes@.len(),
            decodable_from(bytes@, index as int, pass as int),
            prefix + decode_from(bytes@, 0, 0) == result@ + decode_from(bytes@, index as int, pass as int),
        decreases bytes@.len() - index,
    {
        if pass == 0 {
            let end = if bytes.len() - index > 3 {
                index + 3
            } else {
                bytes.len()
            };
            let slice = vstd::slice::slice_subrange(bytes.as_slice(), index, end);
            assert(slice@ == window(bytes@, index as int));
            let (i, extra_bytes) = get_instruction(slice)?;
            let ghost before = result@;
            result.push(i);
            assert(before + decode_from(bytes@, index as int, 0) =~= result@ + decode_from(
                bytes@,
                index + 1,
                extra_bytes as int,
            ));
            pass = extra_bytes;
        } else {
            pass = pass - 1;
        }
        index = index + 1;
    }
    assert(decode_from(bytes@, index as int, pass as int) =~= Seq::empty());
    assert(result@ =~= prefix + decode_from(bytes@, 0, 0));
    Ok(result)
}


fn is_two_byte_operand(code: u8) -> (r: bool)
    ensures
        r == (bytes_read_after(code) == 2),
{
    code == 0x01 || code == 0x11 || code == 0x21 || code == 0x22 || code == 0x2a || code == 0x31 || code == 0x32 || code == 0x3a || code == 0xc2 || code == 0xc3 || code == 0xc4 || code == 0xca || code == 0xcc || code == 0xcd || code == 0xd2 || code == 0xd4 || code == 0xda || code == 0xdc || code == 0xe2 || code == 0xe4 || code == 0xea || code == 0xec || code == 0xf2 || code == 0xf4 || code == 0xfa || code == 0xfc
}

fn is_one_byte_operand(code: u8) -> (r: bool)
    ensures
        r == (bytes_read_after(code) == 1),
{
    code == 0x06 || code == 0x0e || code == 0x16 || code == 0x1e || code == 0x26 || code == 0x2e || code == 0x36 || code == 0x3e || code == 0xc6 || code == 0xce || code == 0xd3 || code == 0xd6 || code == 0xdb || code == 0xde || code == 0xe6 || code == 0xee || code == 0xf6 || code == 0xfe
}

/// Whether `get_instructions` can walk `bytes` to the end: every instruction
/// it meets has the bytes it reads.
pub fn is_decodable(bytes: &[u8]) -> (r: bool)
    ensures
        r == decodable_from(bytes@, 0, 0),
{
    let mut pass: u8 = 0;
    let mut index: usize = 0;
    while index < bytes.len()
        invariant
            index <= bytes@.len(),
            decodable_from(bytes@, 0, 0) == decodable_from(bytes@, index as int, pass as int),
        decreases bytes@.len() - index,
    {
        if pass == 0 {
            let end = if bytes.len() - index > 3 {
                index + 3
            } else {
                bytes.len()
            };
            let slice = vstd::slice::slice_subrange(bytes, index, end);
            assert(slice@ == window(bytes@, index as int));
            let needed: usize = if is_two_byte_operand(bytes[index]) {
                3
            } else if is_one_byte_operand(bytes[index]) {
                2
            } else {
                1
            };
            if slice.len() < needed {
                return false;
            }
            let (_, extra_bytes) = get_instruction(slice).unwrap();
            pass = extra_bytes;
        } else {
            pass = pass - 1;
        }
        index = index + 1;
    }
    true
}


/// The register pair that the two-bit field `pair` of an opcode names in
/// the 8080 manual: BC, DE, HL, then SP (or PSW for PUSH and POP).
pub open spec fn manual_pair(pair: int, last: Register) -> Register {
    if pair == 0 {
        Register::B
    } else if pair == 1 {
        Register::D
    } else if pair == 2 {
        Register::H
    } else {
        last
    }
}

/// The register that the three-bit field `field` names in the 8080 manual:
/// B, C, D, E, H, L, the memory cell M, A.
pub open spec fn manual_register(field: int) -> Register {
    seq![Register::B, Register::C, Register::D, Register::E, Register::H, Register::L, Register::M, Register::A][field]
}

/// The instruction that the Intel 8080 (and 8085) manual gives to `code`,
/// read in octal as `xx yyy zzz`; `None` for the opcodes it leaves
/// undefined.
pub open spec fn manual_instruction(code: u8, b1: u8, b2: u8) -> Option<Instruction> {
    let x = code as int / 64;
    let y = (code as int / 8) % 8;
    let z = code as int % 8;
    let address = [b1, b2];
    let r = manual_register(y);
    if x == 0 {
        if z == 0 {
            if y == 0 {
                Some(Instruction::Noop)
            } else if y == 4 {
                Some(Instruction::Rim)
            } else if y == 6 {
                Some(Instruction::Sim)
            } else {
                None
            }
        } else if z == 1 {
            if y % 2 == 0 {
                Some(Instruction::Lxi { register: manual_pair(y / 2, Register::Sp), low_byte: b1, high_byte: b2 })
            } else {
                Some(Instruction::Dad { register: manual_pair(y / 2, Register::Sp) })
            }
        } else if z == 2 {
            seq![
                Some(Instruction::Stax { register: Register::B }),
                Some(Instruction::Ldax { register: Register::B }),
                Some(Instruction::Stax { register: Register::D }),
                Some(Instruction::Ldax { register: Register::D }),
                Some(Instruction::Shld { address }),
                Some(Instruction::Lhld { address }),
                Some(Instruction::Sta { address }),
                Some(Instruction::Lda { address }),
            ][y]
        } else if z == 3 {
            if y % 2 == 0 {
                Some(Instruction::Inx { register: manual_pair(y / 2, Register::Sp) })
            } else {
                Some(Instruction::Dcx { register: manual_pair(y / 2, Register::Sp) })
            }
        } else if z == 4 {
            Some(Instruction::Inr { register: r })
        } else if z == 5 {
            Some(Instruction::Dcr { register: r })
        } else if z == 6 {
            Some(Instruction::Mvi { register: r, byte: b1 })
        } else {
            seq![
                Some(Instruction::Rlc),
                Some(Instruction::Rrc),
                Some(Instruction::Ral),
                Some(Instruction::Rar),
                Some(Instruction::Daa),
                Some(Instruction::Cma),
                Some(Instruction::Stc),
                Some(Instruction::Cmc),
            ][y]
        }
    } else if x == 1 {
        Some(Instruction::Mov { source: r, destiny: manual_register(z) })
    } else if x == 2 {
        let s = manual_register(z);
        seq![
            Some(Instruction::Add { register: s }),
            Some(Instruction::Adc { register: s }),
            Some(Instruction::Sub { register: s }),
            Some(Instruction::Sbb { register: s }),
            Some(Instruction::Ana { register: s }),
            Some(Instruction::Xra { register: s }),
            Some(Instruction::Ora { register: s }),
            Some(Instruction::Cmp { register: s }),
        ][y]
    } else if z == 0 {
        seq![
            Some(Instruction::Rnz),
            Some(Instruction::Rz),
            Some(Instruction::Rnc),
            Some(Instruction::Rc),
            Some(Instruction::Rpo),
            Some(Instruction::Rpe),
            Some(Instruction::Rp),
            Some(Instruction::Rm),
        ][y]
    } else if z == 1 {
        if y % 2 == 0 {
            Some(Instruction::Pop { register: manual_pair(y / 2, Register::Psw) })
        } else {
            seq![Some(Instruction::Ret), None, Some(Instruction::Pchl), Some(Instruction::Sphl)][y / 2]
        }
    } else if z == 2 {
        seq![
            Some(Instruction::Jnz { address }),
            Some(Instruction::Jz { address }),
            Some(Instruction::Jnc { address }),
            Some(Instruction::Jc { address }),
            Some(Instruction::Jpo { address }),
            Some(Instruction::Jpe { address }),
            Some(Instruction::Jp { address }),
            Some(Instruction::Jm { address }),
        ][y]
    } else if z == 3 {
        seq![
            Some(Instruction::Jmp { address }),
            None,
            Some(Instruction::Out { byte: b1 }),
            Some(Instruction::In { byte: b1 }),
            Some(Instruction::Xthl),
            Some(Instruction::Xchg),
            Some(Instruction::Di),
            Some(Instruction::El),
        ][y]
    } else if z == 4 {
        seq![
            Some(Instruction::Cnz { address }),
            Some(Instruction::Cz { address }),
            Some(Instruction::Cnc { address }),
            Some(Instruction::Cc { address }),
            Some(Instruction::Cpo { address }),
            Some(Instruction::Cpe { address }),
            Some(Instruction::Cp { address }),
            Some(Instruction::Cm { address }),
        ][y]
    } else if z == 5 {
        if y % 2 == 0 {
            Some(Instruction::Push { register: manual_pair(y / 2, Register::Psw) })
        } else if y == 1 {
            Some(Instruction::Call { address })
        } else {
            None
        }
    } else if z == 6 {
        seq![
            Some(Instruction::Adi { byte: b1 }),
            Some(Instruction::Aci { byte: b1 }),
            Some(Instruction::Sui { byte: b1 }),
            Some(Instruction::Sbi { byte: b1 }),
            Some(Instruction::Ani { byte: b1 }),
            Some(Instruction::Xri { byte: b1 }),
            Some(Instruction::Ori { byte: b1 }),
            Some(Instruction::Cpi { byte: b1 }),
        ][y]
    } else {
        Some(Instruction::Rst { value: y as u8 })
    }
}


/// How many bytes follow the opcode `code` in the 8080 manual: two for an
/// address or a 16-bit immediate, one for an 8-bit immediate or a port.
pub open spec fn manual_operand_bytes(code: u8) -> u8 {
    let x = code as int / 64;
    let y = (code as int / 8) % 8;
    let z = code as int % 8;
    if x == 0 {
        if (z == 1 && y % 2 == 0) || (z == 2 && y >= 4) {
            2
        } else if z == 6 {
            1
        } else {
            0
        }
    } else if x == 3 {
        if z == 2 || z == 4 || code == 0xC3 || code == 0xCD {
            2
        } else if z == 6 || code == 0xD3 || code == 0xDB {
            1
        } else {
            0
        }
    } else {
        0
    }
}

/// The opcodes on which the decoder departs from the manual: DCR L and
/// DCR A read as DCX, HLT reads as a move from M to M, RST 0 reads as
/// RST 1, and JC and CC skip one operand byte.
pub open spec fn departs_from_manual(code: u8) -> bool {
    code == 0x2D || code == 0x3D || code == 0x76 || code == 0xC7 || code == 0xDA || code == 0xDC
}

/// The decoder follows the Intel 8080 manual's opcode map: every opcode the
/// manual defines decodes to its instruction, with its operand bytes taken
/// from the bytes after it and skipped, and every opcode it leaves
/// undefined decodes as a one-byte `Noop`. The few departures are stated
/// too.
pub proof fn lemma_decoder_follows_the_manual(code: u8, b1: u8, b2: u8)
    ensures
        !departs_from_manual(code) ==> decoded(code, b1, b2) == match manual_instruction(code, b1, b2) {
            Some(instruction) => (instruction, manual_operand_bytes(code)),
            None => (Instruction::Noop, 0u8),
        },
        decoded(0x2D, b1, b2) == (Instruction::Dcx { register: Register::L }, 0u8),
        decoded(0x3D, b1, b2) == (Instruction::Dcx { register: Register::A }, 0u8),
        decoded(0x76, b1, b2) == (Instruction::Mov { source: Register::M, destiny: Register::M }, 0u8),
        decoded(0xC7, b1, b2) == (Instruction::Rst { value: 1 }, 0u8),
        decoded(0xDA, b1, b2) == (Instruction::Jc { address: [b1, b2] }, 1u8),
        decoded(0xDC, b1, b2) == (Instruction::Cc { address: [b1, b2] }, 1u8),
{
    let c = code as int;
    if c < 0x10 {
    } else if c < 0x20 {
    } else if c < 0x30 {
    } else if c < 0x40 {
    } else if c < 0x80 {
    } else if c < 0xC0 {
    } else if c < 0xD0 {
    } else if c < 0xE0 {
    } else if c < 0xF0 {
    } else {
    }
}

} // verus!
