use emulators::space_invaders::external_shift::{
    ExternalShiftOffsetWriter, ExternalShiftReader, ExternalShiftWriter,
};
use emulators::space_invaders::screen::{get_bits, GameScreen, FRAME_BUFFER_SIZE, SCREEN_WIDTH};
use emulators::space_invaders::console::{ConsoleOptions, ROM_MEMORY_LIMIT};
use emulators::space_invaders::io_devices::{DummyInputDevice, DummyOutputDevice};
use emulators::space_invaders::sounds::{SoundCommand, SoundPort1, SoundPort2};

#[test]
fn it_should_perform_shift() {
    let mut shift_writer = ExternalShiftWriter::new();
    let mut offset_writer = ExternalShiftOffsetWriter::new();
    let shift_reader = ExternalShiftReader::new(&shift_writer, &offset_writer);

    shift_writer.write(0);
    shift_writer.write(1);
    offset_writer.write(6);

    assert_eq!(shift_reader.read(&shift_writer, &offset_writer), 64);
}

#[test]
fn it_should_correctly_translate_from_memory() {
    let expected_output: Vec<Vec<bool>> = [
        [true; SCREEN_WIDTH],
        [true; SCREEN_WIDTH],
        [true; SCREEN_WIDTH],
        [true; SCREEN_WIDTH],
        [false; SCREEN_WIDTH],
        [false; SCREEN_WIDTH],
        [false; SCREEN_WIDTH],
        [false; SCREEN_WIDTH],
        [false; SCREEN_WIDTH],
        [false; SCREEN_WIDTH],
        [false; SCREEN_WIDTH],
        [false; SCREEN_WIDTH],
        [false; SCREEN_WIDTH],
        [false; SCREEN_WIDTH],
        [false; SCREEN_WIDTH],
        [false; SCREEN_WIDTH],
        [false; SCREEN_WIDTH],
        [false; SCREEN_WIDTH],
        [false; SCREEN_WIDTH],
        [false; SCREEN_WIDTH],
        [false; SCREEN_WIDTH],
        [false; SCREEN_WIDTH],
        [false; SCREEN_WIDTH],
        [false; SCREEN_WIDTH],
        [false; SCREEN_WIDTH],
        [false; SCREEN_WIDTH],
        [false; SCREEN_WIDTH],
        [false; SCREEN_WIDTH],
        [false; SCREEN_WIDTH],
        [false; SCREEN_WIDTH],
        [false; SCREEN_WIDTH],
        [false; SCREEN_WIDTH],
        [false; SCREEN_WIDTH],
        [false; SCREEN_WIDTH],
        [false; SCREEN_WIDTH],
        [false; SCREEN_WIDTH],
        [false; SCREEN_WIDTH],
        [false; SCREEN_WIDTH],
        [false; SCREEN_WIDTH],
        [false; SCREEN_WIDTH],
        [false; SCREEN_WIDTH],
        [false; SCREEN_WIDTH],
        [false; SCREEN_WIDTH],
        [false; SCREEN_WIDTH],
        [false; SCREEN_WIDTH],
        [false; SCREEN_WIDTH],
        [false; SCREEN_WIDTH],
        [false; SCREEN_WIDTH],
        [false; SCREEN_WIDTH],
        [false; SCREEN_WIDTH],
        [false; SCREEN_WIDTH],
        [false; SCREEN_WIDTH],
        [false; SCREEN_WIDTH],
        [false; SCREEN_WIDTH],
        [false; SCREEN_WIDTH],
        [false; SCREEN_WIDTH],
        [false; SCREEN_WIDTH],
        [false; SCREEN_WIDTH],
        [false; SCREEN_WIDTH],
        [false; SCREEN_WIDTH],
        [false; SCREEN_WIDTH],
        [false; SCREEN_WIDTH],
        [false; SCREEN_WIDTH],
        [false; SCREEN_WIDTH],
        [false; SCREEN_WIDTH],
        [false; SCREEN_WIDTH],
        [false; SCREEN_WIDTH],
        [false; SCREEN_WIDTH],
        [false; SCREEN_WIDTH],
        [false; SCREEN_WIDTH],
        [false; SCREEN_WIDTH],
        [false; SCREEN_WIDTH],
        [false; SCREEN_WIDTH],
        [false; SCREEN_WIDTH],
        [false; SCREEN_WIDTH],
        [false; SCREEN_WIDTH],
        [false; SCREEN_WIDTH],
        [false; SCREEN_WIDTH],
        [false; SCREEN_WIDTH],
        [false; SCREEN_WIDTH],
        [false; SCREEN_WIDTH],
        [false; SCREEN_WIDTH],
        [false; SCREEN_WIDTH],
        [false; SCREEN_WIDTH],
        [false; SCREEN_WIDTH],
        [false; SCREEN_WIDTH],
        [false; SCREEN_WIDTH],
        [false; SCREEN_WIDTH],
        [false; SCREEN_WIDTH],
        [false; SCREEN_WIDTH],
        [false; SCREEN_WIDTH],
        [false; SCREEN_WIDTH],
        [false; SCREEN_WIDTH],
        [false; SCREEN_WIDTH],
        [false; SCREEN_WIDTH],
        [false; SCREEN_WIDTH],
        [false; SCREEN_WIDTH],
        [false; SCREEN_WIDTH],
        [false; SCREEN_WIDTH],
        [false; SCREEN_WIDTH],
        [false; SCREEN_WIDTH],
        [false; SCREEN_WIDTH],
        [false; SCREEN_WIDTH],
        [false; SCREEN_WIDTH],
        [false; SCREEN_WIDTH],
        [false; SCREEN_WIDTH],
        [false; SCREEN_WIDTH],
        [false; SCREEN_WIDTH],
        [false; SCREEN_WIDTH],
        [false; SCREEN_WIDTH],
        [false; SCREEN_WIDTH],
        [false; SCREEN_WIDTH],
        [false; SCREEN_WIDTH],
        [false; SCREEN_WIDTH],
        [false; SCREEN_WIDTH],
        [false; SCREEN_WIDTH],
        [false; SCREEN_WIDTH],
        [false; SCREEN_WIDTH],
        [false; SCREEN_WIDTH],
        [false; SCREEN_WIDTH],
        [false; SCREEN_WIDTH],
        [false; SCREEN_WIDTH],
        [false; SCREEN_WIDTH],
        [false; SCREEN_WIDTH],
        [false; SCREEN_WIDTH],
        [false; SCREEN_WIDTH],
        [false; SCREEN_WIDTH],
        [false; SCREEN_WIDTH],
        [false; SCREEN_WIDTH],
        [false; SCREEN_WIDTH],
        [false; SCREEN_WIDTH],
        [false; SCREEN_WIDTH],
        [false; SCREEN_WIDTH],
        [false; SCREEN_WIDTH],
        [false; SCREEN_WIDTH],
        [false; SCREEN_WIDTH],
        [false; SCREEN_WIDTH],
        [false; SCREEN_WIDTH],
        [false; SCREEN_WIDTH],
        [false; SCREEN_WIDTH],
        [false; SCREEN_WIDTH],
        [false; SCREEN_WIDTH],
        [false; SCREEN_WIDTH],
        [false; SCREEN_WIDTH],
        [false; SCREEN_WIDTH],
        [false; SCREEN_WIDTH],
        [false; SCREEN_WIDTH],
        [false; SCREEN_WIDTH],
        [false; SCREEN_WIDTH],
        [false; SCREEN_WIDTH],
        [false; SCREEN_WIDTH],
        [false; SCREEN_WIDTH],
        [false; SCREEN_WIDTH],
        [false; SCREEN_WIDTH],
        [false; SCREEN_WIDTH],
        [false; SCREEN_WIDTH],
        [false; SCREEN_WIDTH],
        [false; SCREEN_WIDTH],
        [false; SCREEN_WIDTH],
        [false; SCREEN_WIDTH],
        [false; SCREEN_WIDTH],
        [false; SCREEN_WIDTH],
        [false; SCREEN_WIDTH],
        [false; SCREEN_WIDTH],
        [false; SCREEN_WIDTH],
        [false; SCREEN_WIDTH],
        [false; SCREEN_WIDTH],
        [false; SCREEN_WIDTH],
        [false; SCREEN_WIDTH],
        [false; SCREEN_WIDTH],
        [false; SCREEN_WIDTH],
        [false; SCREEN_WIDTH],
        [false; SCREEN_WIDTH],
        [false; SCREEN_WIDTH],
        [false; SCREEN_WIDTH],
        [false; SCREEN_WIDTH],
        [false; SCREEN_WIDTH],
        [false; SCREEN_WIDTH],
        [false; SCREEN_WIDTH],
        [false; SCREEN_WIDTH],
        [false; SCREEN_WIDTH],
        [false; SCREEN_WIDTH],
        [false; SCREEN_WIDTH],
        [false; SCREEN_WIDTH],
        [false; SCREEN_WIDTH],
        [false; SCREEN_WIDTH],
        [false; SCREEN_WIDTH],
        [false; SCREEN_WIDTH],
        [false; SCREEN_WIDTH],
        [false; SCREEN_WIDTH],
        [false; SCREEN_WIDTH],
        [false; SCREEN_WIDTH],
        [false; SCREEN_WIDTH],
        [false; SCREEN_WIDTH],
        [false; SCREEN_WIDTH],
        [false; SCREEN_WIDTH],
        [false; SCREEN_WIDTH],
        [false; SCREEN_WIDTH],
        [false; SCREEN_WIDTH],
        [false; SCREEN_WIDTH],
        [false; SCREEN_WIDTH],
        [false; SCREEN_WIDTH],
        [false; SCREEN_WIDTH],
        [false; SCREEN_WIDTH],
        [false; SCREEN_WIDTH],
        [false; SCREEN_WIDTH],
        [false; SCREEN_WIDTH],
        [false; SCREEN_WIDTH],
        [false; SCREEN_WIDTH],
        [false; SCREEN_WIDTH],
        [false; SCREEN_WIDTH],
        [false; SCREEN_WIDTH],
        [false; SCREEN_WIDTH],
        [false; SCREEN_WIDTH],
        [false; SCREEN_WIDTH],
        [false; SCREEN_WIDTH],
        [false; SCREEN_WIDTH],
        [false; SCREEN_WIDTH],
        [false; SCREEN_WIDTH],
        [false; SCREEN_WIDTH],
        [false; SCREEN_WIDTH],
        [false; SCREEN_WIDTH],
        [false; SCREEN_WIDTH],
        [false; SCREEN_WIDTH],
        [false; SCREEN_WIDTH],
        [false; SCREEN_WIDTH],
        [false; SCREEN_WIDTH],
        [false; SCREEN_WIDTH],
        [false; SCREEN_WIDTH],
        [false; SCREEN_WIDTH],
        [false; SCREEN_WIDTH],
        [false; SCREEN_WIDTH],
        [false; SCREEN_WIDTH],
        [false; SCREEN_WIDTH],
        [false; SCREEN_WIDTH],
        [false; SCREEN_WIDTH],
        [false; SCREEN_WIDTH],
        [false; SCREEN_WIDTH],
        [false; SCREEN_WIDTH],
        [false; SCREEN_WIDTH],
        [false; SCREEN_WIDTH],
        [false; SCREEN_WIDTH],
        [false; SCREEN_WIDTH],
        [false; SCREEN_WIDTH],
        [false; SCREEN_WIDTH],
        [false; SCREEN_WIDTH],
        [false; SCREEN_WIDTH],
        [false; SCREEN_WIDTH],
        [false; SCREEN_WIDTH],
        [false; SCREEN_WIDTH],
        [false; SCREEN_WIDTH],
        [false; SCREEN_WIDTH],
        [true; SCREEN_WIDTH],
        [true; SCREEN_WIDTH],
        [true; SCREEN_WIDTH],
        [true; SCREEN_WIDTH],
    ]
    .iter()
    .map(|s| s.to_vec())
    .collect();
    let mut memory = [0; FRAME_BUFFER_SIZE];
    for counter in (0x1f..FRAME_BUFFER_SIZE).step_by(0x20) {
        memory[counter] = 0xf0;
    }
    for counter in (0x00..(FRAME_BUFFER_SIZE - 0x1f)).step_by(0x20) {
        memory[counter] = 0x0f;
    }
    let mut screen = GameScreen::new();
    screen.on_full_screen(&memory);
    screen.on_mid_screen(&memory);
    let actual_output: Vec<Vec<bool>> =
        screen.get_pixels().iter().map(|s| s.to_vec()).collect();
    assert_eq!(expected_output, actual_output);
}

#[test]
fn the_shift_offset_keeps_three_bits() {
    let mut shift_writer = ExternalShiftWriter::new();
    let mut offset_writer = ExternalShiftOffsetWriter::new();
    let reader = ExternalShiftReader::new(&shift_writer, &offset_writer);
    assert_eq!(offset_writer.get_shift_offset(), 0);
    offset_writer.write(0xFF);
    assert_eq!(offset_writer.get_shift_offset(), 7);
    shift_writer.write(0xAB);
    shift_writer.write(0xCD);
    assert_eq!(shift_writer.get_shift0(), 0xCD);
    assert_eq!(shift_writer.get_shift1(), 0xAB);
    // 0xCDAB >> 1 = 0x66D5, low byte 0xD5.
    assert_eq!(reader.read(&shift_writer, &offset_writer), 0xD5);
    offset_writer.write(8);
    // Offset 0: the high byte unchanged.
    assert_eq!(reader.read(&shift_writer, &offset_writer), 0xCD);
}

#[test]
fn bits_come_least_significant_first() {
    assert_eq!(get_bits(0b1000_0101), [true, false, true, false, false, false, false, true]);
    assert_eq!(get_bits(0), [false; 8]);
}

#[test]
fn each_interrupt_redraws_its_half() {
    let mut memory = [0u8; FRAME_BUFFER_SIZE];
    memory[0] = 0x01;
    memory[100 * 0x20 + 0x1F] = 0x80;
    let mut screen = GameScreen::new();
    screen.on_full_screen(&memory);
    assert!(screen.get_pixels()[255][0]);
    assert!(!screen.get_pixels()[0][100]);
    screen.on_mid_screen(&memory);
    assert!(screen.get_pixels()[0][100]);
    assert_eq!(screen.get_pixels().len(), 256);
    assert_eq!(screen.get_pixels()[17].len(), SCREEN_WIDTH);
}

#[test]
fn console_options_default_to_audio() {
    let options = ConsoleOptions::new([7u8; ROM_MEMORY_LIMIT], "assets");
    assert!(options.has_audio);
    let options = options.with_audio(false);
    assert!(!options.has_audio);
    assert_eq!(options.folder, "assets");
    assert_eq!(options.memory[0xFFFF], 7);
}

#[test]
fn dummy_devices() {
    let mut input = DummyInputDevice { value: 1 };
    assert_eq!(input.read(), 1);
    let mut output = DummyOutputDevice {};
    output.write(9);
}

#[test]
fn sound_ports_decide_what_to_play() {
    let mut port = SoundPort1::new("assets");
    assert_eq!(port.instant_sound_1, "assets/1.wav");
    assert_eq!(port.instant_sound_3, "assets/3.wav");
    let command = port.write(0x03, false, true);
    assert_eq!(command, SoundCommand { background: Some(true), instant_sound: Some(1) });
    let command = port.write(0x0C, true, true);
    assert_eq!(command, SoundCommand { background: None, instant_sound: Some(2) });
    let command = port.write(0x01, true, false);
    assert_eq!(command, SoundCommand { background: Some(false), instant_sound: None });
    let mut port = SoundPort2::new("sounds");
    assert_eq!(port.instant_sound_8, "sounds/8.wav");
    assert_eq!(port.write(0x10, true), SoundCommand { background: None, instant_sound: Some(8) });
    assert_eq!(port.write(0x00, true), SoundCommand { background: None, instant_sound: None });
}
