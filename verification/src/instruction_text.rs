use vstd::prelude::*;
use crate::instruction::{AddressingMode, Mos6502Instruction, Mos6502InstructionCode};

verus! {

/// The lowercase hexadecimal digit `digit` as text.
pub open spec fn hex_digit_text(digit: u8) -> Seq<char> {
    if digit == 0 {
        "0"@
    } else if digit == 1 {
        "1"@
    } else if digit == 2 {
        "2"@
    } else if digit == 3 {
        "3"@
    } else if digit == 4 {
        "4"@
    } else if digit == 5 {
        "5"@
    } else if digit == 6 {
        "6"@
    } else if digit == 7 {
        "7"@
    } else if digit == 8 {
        "8"@
    } else if digit == 9 {
        "9"@
    } else if digit == 10 {
        "a"@
    } else if digit == 11 {
        "b"@
    } else if digit == 12 {
        "c"@
    } else if digit == 13 {
        "d"@
    } else if digit == 14 {
        "e"@
    } else {
        "f"@
    }
}

/// `byte` as two lowercase hexadecimal digits.
pub open spec fn hex_byte_text(byte: u8) -> Seq<char> {
    hex_digit_text(byte / 16) + hex_digit_text(byte % 16)
}

fn hex_digit_str(digit: u8) -> (r: &'static str)
    requires
        digit < 16,
    ensures
        r@ == hex_digit_text(digit),
{
    if digit == 0 {
        "0"
    } else if digit == 1 {
        "1"
    } else if digit == 2 {
        "2"
    } else if digit == 3 {
        "3"
    } else if digit == 4 {
        "4"
    } else if digit == 5 {
        "5"
    } else if digit == 6 {
        "6"
    } else if digit == 7 {
        "7"
    } else if digit == 8 {
        "8"
    } else if digit == 9 {
        "9"
    } else if digit == 10 {
        "a"
    } else if digit == 11 {
        "b"
    } else if digit == 12 {
        "c"
    } else if digit == 13 {
        "d"
    } else if digit == 14 {
        "e"
    } else {
        "f"
    }
}

/// Appends `byte` as two lowercase hexadecimal digits.
fn push_hex_byte(text: &mut String, byte: u8)
    ensures
        final(text)@ == old(text)@ + hex_byte_text(byte),
{
    text.append(hex_digit_str(byte / 16));
    text.append(hex_digit_str(byte % 16));
    assert(final(text)@ =~= old(text)@ + hex_byte_text(byte)) by {
        assert(text@ =~= old(text)@ + hex_digit_text(byte / 16) + hex_digit_text(byte % 16));
    }
}

/// The assembler syntax of an addressing mode (empty for implicit).
pub open spec fn mode_text(mode: AddressingMode) -> Seq<char> {
    match mode {
        AddressingMode::Implicit => ""@,
        AddressingMode::Accumulator => "A"@,
        AddressingMode::Immediate { byte } => "#"@ + hex_byte_text(byte),
        AddressingMode::ZeroPage { byte } => "$"@ + hex_byte_text(byte),
        AddressingMode::Absolute { high_byte, low_byte } => "$"@ + hex_byte_text(high_byte) + hex_byte_text(low_byte),
        AddressingMode::Relative { byte } => "$"@ + hex_byte_text(byte),
        AddressingMode::Indirect { high_byte, low_byte } => "($"@ + hex_byte_text(high_byte) + hex_byte_text(
            low_byte,
        ) + ")"@,
        AddressingMode::ZeroPageIndexedX { byte } => "$"@ + hex_byte_text(byte) + ",x"@,
        AddressingMode::ZeroPageIndexedY { byte } => "$"@ + hex_byte_text(byte) + ",y"@,
        AddressingMode::AbsoluteIndexedX { high_byte, low_byte } => "$"@ + hex_byte_text(high_byte)
            + hex_byte_text(low_byte) + ",x"@,
        AddressingMode::AbsoluteIndexedY { high_byte, low_byte } => "$"@ + hex_byte_text(high_byte)
            + hex_byte_text(low_byte) + ",y"@,
        AddressingMode::IndexedIndirect { byte } => "($"@ + hex_byte_text(byte) + ",x)"@,
        AddressingMode::IndirectIndexed { byte } => "($"@ + hex_byte_text(byte) + "),y"@,
    }
}

/// The mnemonic of an instruction code.
pub open spec fn mnemonic_text(code: Mos6502InstructionCode) -> Seq<char> {
    match code {
        Mos6502InstructionCode::Adc => "ADC"@,
        Mos6502InstructionCode::Ahx => "AHX"@,
        Mos6502InstructionCode::Alr => "ALR"@,
        Mos6502InstructionCode::Anc => "ANC"@,
        Mos6502InstructionCode::And => "AND"@,
        Mos6502InstructionCode::Arr => "ARR"@,
        Mos6502InstructionCode::Asl => "ASL"@,
        Mos6502InstructionCode::Axs => "AXS"@,
        Mos6502InstructionCode::Bcc => "BCC"@,
        Mos6502InstructionCode::Bcs => "BCS"@,
        Mos6502InstructionCode::Beq => "BEQ"@,
        Mos6502InstructionCode::Bit => "BIT"@,
        Mos6502InstructionCode::Bmi => "BMI"@,
        Mos6502InstructionCode::Bne => "BNE"@,
        Mos6502InstructionCode::Bpl => "BPL"@,
        Mos6502InstructionCode::Brk => "BRK"@,
        Mos6502InstructionCode::Bvc => "BVC"@,
        Mos6502InstructionCode::Bvs => "BVS"@,
        Mos6502InstructionCode::Clc => "CLC"@,
        Mos6502InstructionCode::Cld => "CLD"@,
        Mos6502InstructionCode::Cli => "CLI"@,
        Mos6502InstructionCode::Clv => "CLV"@,
        Mos6502InstructionCode::Cmp => "CMP"@,
        Mos6502InstructionCode::Cpx => "CPX"@,
        Mos6502InstructionCode::Cpy => "CPY"@,
        Mos6502InstructionCode::Dcp => "DCP"@,
        Mos6502InstructionCode::Dec => "DEC"@,
        Mos6502InstructionCode::Dex => "DEX"@,
        Mos6502InstructionCode::Dey => "DEY"@,
        Mos6502InstructionCode::Eor => "EOR"@,
        Mos6502InstructionCode::Inc => "INC"@,
        Mos6502InstructionCode::Inx => "INX"@,
        Mos6502InstructionCode::Iny => "INY"@,
        Mos6502InstructionCode::Irq => "IRQ"@,
        Mos6502InstructionCode::Isc => "ISC"@,
        Mos6502InstructionCode::Jmp => "JMP"@,
        Mos6502InstructionCode::Jsr => "JSR"@,
        Mos6502InstructionCode::Las => "LAS"@,
        Mos6502InstructionCode::Lax => "LAX"@,
        Mos6502InstructionCode::Lda => "LDA"@,
        Mos6502InstructionCode::Ldx => "LDX"@,
        Mos6502InstructionCode::Ldy => "LDY"@,
        Mos6502InstructionCode::Lsr => "LSR"@,
        Mos6502InstructionCode::Nmi => "NMI"@,
        Mos6502InstructionCode::Nop => "NOP"@,
        Mos6502InstructionCode::Ora => "ORA"@,
        Mos6502InstructionCode::Pha => "PHA"@,
        Mos6502InstructionCode::Php => "PHP"@,
        Mos6502InstructionCode::Pla => "PLA"@,
        Mos6502InstructionCode::Plp => "PLP"@,
        Mos6502InstructionCode::Rla => "RLA"@,
        Mos6502InstructionCode::Rol => "ROL"@,
        Mos6502InstructionCode::Ror => "ROR"@,
        Mos6502InstructionCode::Rra => "RRA"@,
        Mos6502InstructionCode::Rst => "RST"@,
        Mos6502InstructionCode::Rti => "RTI"@,
        Mos6502InstructionCode::Rts => "RTS"@,
        Mos6502InstructionCode::Sax => "SAX"@,
        Mos6502InstructionCode::Sbc => "SBC"@,
        Mos6502InstructionCode::Sec => "SEC"@,
        Mos6502InstructionCode::Sed => "SED"@,
        Mos6502InstructionCode::Sei => "SEI"@,
        Mos6502InstructionCode::Shx => "SHX"@,
        Mos6502InstructionCode::Shy => "SHY"@,
        Mos6502InstructionCode::Slo => "SLO"@,
        Mos6502InstructionCode::Sre => "SRE"@,
        Mos6502InstructionCode::Sta => "STA"@,
        Mos6502InstructionCode::Stx => "STX"@,
        Mos6502InstructionCode::Sty => "STY"@,
        Mos6502InstructionCode::Tas => "TAS"@,
        Mos6502InstructionCode::Tax => "TAX"@,
        Mos6502InstructionCode::Tay => "TAY"@,
        Mos6502InstructionCode::Tsx => "TSX"@,
        Mos6502InstructionCode::Txa => "TXA"@,
        Mos6502InstructionCode::Txs => "TXS"@,
        Mos6502InstructionCode::Tya => "TYA"@,
        Mos6502InstructionCode::Xaa => "XAA"@,
    }
}

impl AddressingMode {
    /// The operand in assembler syntax: `#` for immediate, `$` before
    /// addresses, `,x`/`,y` for indexing, parentheses for indirection.
    pub fn to_string(&self) -> (r: String)
        ensures
            r@ == mode_text(*self),
    {
        match self {
            AddressingMode::Implicit => String::from_str(""),
            AddressingMode::Accumulator => String::from_str("A"),
            AddressingMode::Immediate { byte } => {
                let mut text = String::from_str("#");
                push_hex_byte(&mut text, *byte);
                text
            },
            AddressingMode::ZeroPage { byte } | AddressingMode::Relative { byte } => {
                let mut text = String::from_str("$");
                push_hex_byte(&mut text, *byte);
                text
            },
            AddressingMode::Absolute { high_byte, low_byte } => {
                let mut text = String::from_str("$");
                push_hex_byte(&mut text, *high_byte);
                push_hex_byte(&mut text, *low_byte);
                text
            },
            AddressingMode::Indirect { high_byte, low_byte } => {
                let mut text = String::from_str("($");
                push_hex_byte(&mut text, *high_byte);
                push_hex_byte(&mut text, *low_byte);
                text.append(")");
                text
            },
            AddressingMode::ZeroPageIndexedX { byte } => {
                let mut text = String::from_str("$");
                push_hex_byte(&mut text, *byte);
                text.append(",x");
                text
            },
            AddressingMode::ZeroPageIndexedY { byte } => {
                let mut text = String::from_str("$");
                push_hex_byte(&mut text, *byte);
                text.append(",y");
                text
            },
            AddressingMode::AbsoluteIndexedX { high_byte, low_byte } => {
                let mut text = String::from_str("$");
                push_hex_byte(&mut text, *high_byte);
                push_hex_byte(&mut text, *low_byte);
                text.append(",x");
                text
            },
            AddressingMode::AbsoluteIndexedY { high_byte, low_byte } => {
                let mut text = String::from_str("$");
                push_hex_byte(&mut text, *high_byte);
                push_hex_byte(&mut text, *low_byte);
                text.append(",y");
                text
            },
            AddressingMode::IndexedIndirect { byte } => {
                let mut text = String::from_str("($");
                push_hex_byte(&mut text, *byte);
                text.append(",x)");
                text
            },
            AddressingMode::IndirectIndexed { byte } => {
                let mut text = String::from_str("($");
                push_hex_byte(&mut text, *byte);
                text.append("),y");
                text
            },
        }
    }
}

impl Mos6502InstructionCode {
    /// The mnemonic, in capitals.
    pub fn to_string(&self) -> (r: String)
        ensures
            r@ == mnemonic_text(*self),
    {
        match self {
            Mos6502InstructionCode::Adc => String::from_str("ADC"),
            Mos6502InstructionCode::Ahx => String::from_str("AHX"),
            Mos6502InstructionCode::Alr => String::from_str("ALR"),
            Mos6502InstructionCode::Anc => String::from_str("ANC"),
            Mos6502InstructionCode::And => String::from_str("AND"),
            Mos6502InstructionCode::Arr => String::from_str("ARR"),
            Mos6502InstructionCode::Asl => String::from_str("ASL"),
            Mos6502InstructionCode::Axs => String::from_str("AXS"),
            Mos6502InstructionCode::Bcc => String::from_str("BCC"),
            Mos6502InstructionCode::Bcs => String::from_str("BCS"),
            Mos6502InstructionCode::Beq => String::from_str("BEQ"),
            Mos6502InstructionCode::Bit => String::from_str("BIT"),
            Mos6502InstructionCode::Bmi => String::from_str("BMI"),
            Mos6502InstructionCode::Bne => String::from_str("BNE"),
            Mos6502InstructionCode::Bpl => String::from_str("BPL"),
            Mos6502InstructionCode::Brk => String::from_str("BRK"),
            Mos6502InstructionCode::Bvc => String::from_str("BVC"),
            Mos6502InstructionCode::Bvs => String::from_str("BVS"),
            Mos6502InstructionCode::Clc => String::from_str("CLC"),
            Mos6502InstructionCode::Cld => String::from_str("CLD"),
            Mos6502InstructionCode::Cli => String::from_str("CLI"),
            Mos6502InstructionCode::Clv => String::from_str("CLV"),
            Mos6502InstructionCode::Cmp => String::from_str("CMP"),
            Mos6502InstructionCode::Cpx => String::from_str("CPX"),
            Mos6502InstructionCode::Cpy => String::from_str("CPY"),
            Mos6502InstructionCode::Dcp => String::from_str("DCP"),
            Mos6502InstructionCode::Dec => String::from_str("DEC"),
            Mos6502InstructionCode::Dex => String::from_str("DEX"),
            Mos6502InstructionCode::Dey => String::from_str("DEY"),
            Mos6502InstructionCode::Eor => String::from_str("EOR"),
            Mos6502InstructionCode::Inc => String::from_str("INC"),
            Mos6502InstructionCode::Inx => String::from_str("INX"),
            Mos6502InstructionCode::Iny => String::from_str("INY"),
            Mos6502InstructionCode::Irq => String::from_str("IRQ"),
            Mos6502InstructionCode::Isc => String::from_str("ISC"),
            Mos6502InstructionCode::Jmp => String::from_str("JMP"),
            Mos6502InstructionCode::Jsr => String::from_str("JSR"),
            Mos6502InstructionCode::Las => String::from_str("LAS"),
            Mos6502InstructionCode::Lax => String::from_str("LAX"),
            Mos6502InstructionCode::Lda => String::from_str("LDA"),
            Mos6502InstructionCode::Ldx => String::from_str("LDX"),
            Mos6502InstructionCode::Ldy => String::from_str("LDY"),
            Mos6502InstructionCode::Lsr => String::from_str("LSR"),
            Mos6502InstructionCode::Nmi => String::from_str("NMI"),
            Mos6502InstructionCode::Nop => String::from_str("NOP"),
            Mos6502InstructionCode::Ora => String::from_str("ORA"),
            Mos6502InstructionCode::Pha => String::from_str("PHA"),
            Mos6502InstructionCode::Php => String::from_str("PHP"),
            Mos6502InstructionCode::Pla => String::from_str("PLA"),
            Mos6502InstructionCode::Plp => String::from_str("PLP"),
            Mos6502InstructionCode::Rla => String::from_str("RLA"),
            Mos6502InstructionCode::Rol => String::from_str("ROL"),
            Mos6502InstructionCode::Ror => String::from_str("ROR"),
            Mos6502InstructionCode::Rra => String::from_str("RRA"),
            Mos6502InstructionCode::Rst => String::from_str("RST"),
            Mos6502InstructionCode::Rti => String::from_str("RTI"),
            Mos6502InstructionCode::Rts => String::from_str("RTS"),
            Mos6502InstructionCode::Sax => String::from_str("SAX"),
            Mos6502InstructionCode::Sbc => String::from_str("SBC"),
            Mos6502InstructionCode::Sec => String::from_str("SEC"),
            Mos6502InstructionCode::Sed => String::from_str("SED"),
            Mos6502InstructionCode::Sei => String::from_str("SEI"),
            Mos6502InstructionCode::Shx => String::from_str("SHX"),
            Mos6502InstructionCode::Shy => String::from_str("SHY"),
            Mos6502InstructionCode::Slo => String::from_str("SLO"),
            Mos6502InstructionCode::Sre => String::from_str("SRE"),
            Mos6502InstructionCode::Sta => String::from_str("STA"),
            Mos6502InstructionCode::Stx => String::from_str("STX"),
            Mos6502InstructionCode::Sty => String::from_str("STY"),
            Mos6502InstructionCode::Tas => String::from_str("TAS"),
            Mos6502InstructionCode::Tax => String::from_str("TAX"),
            Mos6502InstructionCode::Tay => String::from_str("TAY"),
            Mos6502InstructionCode::Tsx => String::from_str("TSX"),
            Mos6502InstructionCode::Txa => String::from_str("TXA"),
            Mos6502InstructionCode::Txs => String::from_str("TXS"),
            Mos6502InstructionCode::Tya => String::from_str("TYA"),
            Mos6502InstructionCode::Xaa => String::from_str("XAA"),
        }
    }
}

impl Mos6502Instruction {
    /// The instruction in assembler syntax: the mnemonic, a space, and the
    /// operand.
    pub fn to_string(&self) -> (r: String)
        ensures
            r@ == mnemonic_text(self.instruction) + " "@ + mode_text(self.addressing_mode),
    {
        let mut text = self.instruction.to_string();
        text.append(" ");
        let operand = self.addressing_mode.to_string();
        text.append(operand.as_str());
        text
    }
}


/// Whether `c` is a character that names no index register and closes no
/// parenthesis (a hexadecimal digit is one).
pub open spec fn plain_char(c: char) -> bool {
    c != 'x' && c != 'y' && c != ')' && c != ','
}

proof fn lemma_hex_digit_text(digit: u8)
    requires
        digit < 16,
    ensures
        hex_digit_text(digit).len() == 1,
        plain_char(hex_digit_text(digit)[0]),
{
    reveal_strlit("0");
    reveal_strlit("1");
    reveal_strlit("2");
    reveal_strlit("3");
    reveal_strlit("4");
    reveal_strlit("5");
    reveal_strlit("6");
    reveal_strlit("7");
    reveal_strlit("8");
    reveal_strlit("9");
    reveal_strlit("a");
    reveal_strlit("b");
    reveal_strlit("c");
    reveal_strlit("d");
    reveal_strlit("e");
    reveal_strlit("f");
}

proof fn lemma_hex_byte_text(byte: u8)
    ensures
        hex_byte_text(byte).len() == 2,
        plain_char(hex_byte_text(byte)[0]),
        plain_char(hex_byte_text(byte)[1]),
{
    lemma_hex_digit_text(byte / 16);
    lemma_hex_digit_text(byte % 16);
}

/// Whether `mode` indexes by the Y register.
pub open spec fn indexed_by_y(mode: AddressingMode) -> bool {
    mode is ZeroPageIndexedY || mode is AbsoluteIndexedY || mode is IndirectIndexed
}

/// Whether `mode` indexes by the X register.
pub open spec fn indexed_by_x(mode: AddressingMode) -> bool {
    mode is ZeroPageIndexedX || mode is AbsoluteIndexedX || mode is IndexedIndirect
}

/// Whether `text` names the Y register at its end (`..,y`).
pub open spec fn ends_naming_y(text: Seq<char>) -> bool {
    text.len() >= 2 && text[text.len() - 2] == ',' && text[text.len() - 1] == 'y'
}

/// Whether `text` names the X register at its end (`..,x` or `..,x)`).
pub open spec fn ends_naming_x(text: Seq<char>) -> bool {
    (text.len() >= 2 && text[text.len() - 2] == ',' && text[text.len() - 1] == 'x') || (text.len() >= 3
        && text[text.len() - 3] == ',' && text[text.len() - 2] == 'x' && text[text.len() - 1] == ')')
}

/// The operand text names the register an addressing mode indexes by: it
/// ends in `,y` exactly for the Y-indexed modes and in `,x` or `,x)`
/// exactly for the X-indexed ones; so does the text of a whole
/// instruction.
pub proof fn lemma_operand_text_names_its_index(mode: AddressingMode, code: Mos6502InstructionCode)
    ensures
        ends_naming_y(mode_text(mode)) <==> indexed_by_y(mode),
        ends_naming_x(mode_text(mode)) <==> indexed_by_x(mode),
        ends_naming_y(mnemonic_text(code) + " "@ + mode_text(mode)) <==> indexed_by_y(mode),
        ends_naming_x(mnemonic_text(code) + " "@ + mode_text(mode)) <==> indexed_by_x(mode),
{
    reveal_strlit("");
    reveal_strlit("A");
    reveal_strlit("#");
    reveal_strlit("$");
    reveal_strlit("($");
    reveal_strlit(")");
    reveal_strlit(",x");
    reveal_strlit(",y");
    reveal_strlit(",x)");
    reveal_strlit("),y");
    reveal_strlit(" ");
    let text = mode_text(mode);
    let whole = mnemonic_text(code) + " "@ + text;
    match mode {
        AddressingMode::Immediate { byte } => lemma_hex_byte_text(byte),
        AddressingMode::ZeroPage { byte } => lemma_hex_byte_text(byte),
        AddressingMode::Relative { byte } => lemma_hex_byte_text(byte),
        AddressingMode::ZeroPageIndexedX { byte } => lemma_hex_byte_text(byte),
        AddressingMode::ZeroPageIndexedY { byte } => lemma_hex_byte_text(byte),
        AddressingMode::IndexedIndirect { byte } => lemma_hex_byte_text(byte),
        AddressingMode::IndirectIndexed { byte } => lemma_hex_byte_text(byte),
        AddressingMode::Absolute { high_byte, low_byte } => {
            lemma_hex_byte_text(high_byte);
            lemma_hex_byte_text(low_byte);
        },
        AddressingMode::Indirect { high_byte, low_byte } => {
            lemma_hex_byte_text(high_byte);
            lemma_hex_byte_text(low_byte);
        },
        AddressingMode::AbsoluteIndexedX { high_byte, low_byte } => {
            lemma_hex_byte_text(high_byte);
            lemma_hex_byte_text(low_byte);
        },
        AddressingMode::AbsoluteIndexedY { high_byte, low_byte } => {
            lemma_hex_byte_text(high_byte);
            lemma_hex_byte_text(low_byte);
        },
        _ => {},
    }
    if text.len() >= 1 {
        assert(whole[whole.len() - 1] == text[text.len() - 1]);
    }
    if text.len() >= 2 {
        assert(whole[whole.len() - 2] == text[text.len() - 2]);
    }
    if text.len() >= 3 {
        assert(whole[whole.len() - 3] == text[text.len() - 3]);
    }
}


/// The value of a lowercase hexadecimal digit.
pub open spec fn hex_char_value(c: char) -> int {
    if '0' <= c && c <= '9' {
        c as int - '0' as int
    } else {
        c as int - 'a' as int + 10
    }
}

/// The number that the two hexadecimal digits at `at` in `text` spell.
pub open spec fn hex_pair_value(text: Seq<char>, at: int) -> int {
    hex_char_value(text[at]) * 16 + hex_char_value(text[at + 1])
}

proof fn lemma_hex_digit_value(digit: u8)
    requires
        digit < 16,
    ensures
        hex_char_value(hex_digit_text(digit)[0]) == digit,
{
    reveal_strlit("0");
    reveal_strlit("1");
    reveal_strlit("2");
    reveal_strlit("3");
    reveal_strlit("4");
    reveal_strlit("5");
    reveal_strlit("6");
    reveal_strlit("7");
    reveal_strlit("8");
    reveal_strlit("9");
    reveal_strlit("a");
    reveal_strlit("b");
    reveal_strlit("c");
    reveal_strlit("d");
    reveal_strlit("e");
    reveal_strlit("f");
}

/// Two hexadecimal digits spell the byte they print.
pub proof fn lemma_hex_byte_reads_back(byte: u8)
    ensures
        hex_byte_text(byte).len() == 2,
        hex_pair_value(hex_byte_text(byte), 0) == byte,
{
    lemma_hex_digit_text(byte / 16);
    lemma_hex_digit_text(byte % 16);
    lemma_hex_digit_value(byte / 16);
    lemma_hex_digit_value(byte % 16);
}

/// The operand text spells the operand: `#` before an immediate byte, `$`
/// before an address (`($` for an indirect one), and the bytes in
/// hexadecimal, the high byte of an address first.
pub proof fn lemma_operand_text_reads_back(mode: AddressingMode)
    ensures
        mode matches AddressingMode::Immediate { byte } ==> mode_text(mode)[0] == '#' && hex_pair_value(
            mode_text(mode),
            1,
        ) == byte,
        mode matches AddressingMode::ZeroPage { byte } ==> mode_text(mode)[0] == '$' && hex_pair_value(
            mode_text(mode),
            1,
        ) == byte && mode_text(mode).len() == 3,
        mode matches AddressingMode::Relative { byte } ==> mode_text(mode)[0] == '$' && hex_pair_value(
            mode_text(mode),
            1,
        ) == byte,
        mode matches AddressingMode::ZeroPageIndexedX { byte } ==> mode_text(mode)[0] == '$' && hex_pair_value(
            mode_text(mode),
            1,
        ) == byte,
        mode matches AddressingMode::ZeroPageIndexedY { byte } ==> mode_text(mode)[0] == '$' && hex_pair_value(
            mode_text(mode),
            1,
        ) == byte,
        mode matches AddressingMode::IndexedIndirect { byte } ==> mode_text(mode)[0] == '(' && mode_text(mode)[1]
            == '$' && hex_pair_value(mode_text(mode), 2) == byte,
        mode matches AddressingMode::IndirectIndexed { byte } ==> mode_text(mode)[0] == '(' && mode_text(mode)[1]
            == '$' && hex_pair_value(mode_text(mode), 2) == byte,
        mode matches AddressingMode::Absolute { high_byte, low_byte } ==> mode_text(mode)[0] == '$'
            && hex_pair_value(mode_text(mode), 1) == high_byte && hex_pair_value(mode_text(mode), 3) == low_byte
            && mode_text(mode).len() == 5,
        mode matches AddressingMode::AbsoluteIndexedX { high_byte, low_byte } ==> mode_text(mode)[0] == '$'
            && hex_pair_value(mode_text(mode), 1) == high_byte && hex_pair_value(mode_text(mode), 3) == low_byte,
        mode matches AddressingMode::AbsoluteIndexedY { high_byte, low_byte } ==> mode_text(mode)[0] == '$'
            && hex_pair_value(mode_text(mode), 1) == high_byte && hex_pair_value(mode_text(mode), 3) == low_byte,
        mode matches AddressingMode::Indirect { high_byte, low_byte } ==> mode_text(mode)[0] == '(' && mode_text(
            mode,
        )[1] == '$' && hex_pair_value(mode_text(mode), 2) == high_byte && hex_pair_value(mode_text(mode), 4)
            == low_byte,
        mode is Accumulator ==> mode_text(mode) == seq!['A'],
        mode is Implicit ==> mode_text(mode).len() == 0,
{
    reveal_strlit("");
    reveal_strlit("A");
    reveal_strlit("#");
    reveal_strlit("$");
    reveal_strlit("($");
    reveal_strlit(")");
    reveal_strlit(",x");
    reveal_strlit(",y");
    reveal_strlit(",x)");
    reveal_strlit("),y");
    match mode {
        AddressingMode::Immediate { byte } => lemma_hex_byte_reads_back(byte),
        AddressingMode::ZeroPage { byte } => lemma_hex_byte_reads_back(byte),
        AddressingMode::Relative { byte } => lemma_hex_byte_reads_back(byte),
        AddressingMode::ZeroPageIndexedX { byte } => lemma_hex_byte_reads_back(byte),
        AddressingMode::ZeroPageIndexedY { byte } => lemma_hex_byte_reads_back(byte),
        AddressingMode::IndexedIndirect { byte } => lemma_hex_byte_reads_back(byte),
        AddressingMode::IndirectIndexed { byte } => lemma_hex_byte_reads_back(byte),
        AddressingMode::Absolute { high_byte, low_byte } => {
            lemma_hex_byte_reads_back(high_byte);
            lemma_hex_byte_reads_back(low_byte);
        },
        AddressingMode::AbsoluteIndexedX { high_byte, low_byte } => {
            lemma_hex_byte_reads_back(high_byte);
            lemma_hex_byte_reads_back(low_byte);
        },
        AddressingMode::AbsoluteIndexedY { high_byte, low_byte } => {
            lemma_hex_byte_reads_back(high_byte);
            lemma_hex_byte_reads_back(low_byte);
        },
        AddressingMode::Indirect { high_byte, low_byte } => {
            lemma_hex_byte_reads_back(high_byte);
            lemma_hex_byte_reads_back(low_byte);
        },
        _ => {},
    }
}

} // verus!
