use emulators::nes::video_ram::VideoRam;

#[test]
fn video_ram_it_should_get_from_pattern_tables() {
    let mut video_ram = VideoRam::new();
    video_ram.pattern_tables[0] = 0x42;
    assert_eq!(video_ram.get(0), 0x42);
}

#[test]
fn video_ram_it_should_get_from_name_tables() {
    let mut video_ram = VideoRam::new();
    video_ram.name_tables[0] = 0x42;
    assert_eq!(video_ram.get(0x2000), 0x42);
}

#[test]
fn video_ram_it_should_get_from_name_tables_with_mirroring() {
    let mut video_ram = VideoRam::new();
    video_ram.name_tables[0] = 0x42;
    assert_eq!(video_ram.get(0x3000), 0x42);
}

#[test]
fn video_ram_it_should_get_from_palettes() {
    let mut video_ram = VideoRam::new();
    video_ram.palettes[0] = 0x42;
    assert_eq!(video_ram.get(0x3F00), 0x42);
}

#[test]
fn video_ram_it_should_get_from_palettes_with_mirroring() {
    let mut video_ram = VideoRam::new();
    video_ram.palettes[0] = 0x42;
    assert_eq!(video_ram.get(0x3F20), 0x42);
}

#[test]
fn video_ram_it_should_set_in_pattern_tables() {
    let mut video_ram = VideoRam::new();
    video_ram.set(0, 0x42);
    assert_eq!(video_ram.pattern_tables[0], 0x42);
}

#[test]
fn video_ram_it_should_set_in_name_tables() {
    let mut video_ram = VideoRam::new();
    video_ram.set(0x2000, 0x42);
    assert_eq!(video_ram.name_tables[0], 0x42);
}

#[test]
fn video_ram_it_should_set_in_name_tables_with_mirroring() {
    let mut video_ram = VideoRam::new();
    video_ram.set(0x3000, 0x42);
    assert_eq!(video_ram.name_tables[0], 0x42);
}

#[test]
fn video_ram_it_should_set_in_palettes() {
    let mut video_ram = VideoRam::new();
    video_ram.set(0x3F00, 0x42);
    assert_eq!(video_ram.palettes[0], 0x42);
}

#[test]
fn video_ram_it_should_set_in_palettes_with_mirroring() {
    let mut video_ram = VideoRam::new();
    video_ram.set(0x3F20, 0x42);
    assert_eq!(video_ram.palettes[0], 0x42);
}

#[test]
fn it_should_correctly_get_a_tile_from_the_patterns_table() {
    let mut video_ram = VideoRam::new();
    video_ram.pattern_tables[0x0] = 0x10;
    video_ram.pattern_tables[0x1] = 0x00;
    video_ram.pattern_tables[0x2] = 0x44;
    video_ram.pattern_tables[0x3] = 0x00;
    video_ram.pattern_tables[0x4] = 0xFE;
    video_ram.pattern_tables[0x5] = 0x00;
    video_ram.pattern_tables[0x6] = 0x82;
    video_ram.pattern_tables[0x7] = 0x00;
    video_ram.pattern_tables[0x8] = 0x00;
    video_ram.pattern_tables[0x9] = 0x28;
    video_ram.pattern_tables[0xa] = 0x44;
    video_ram.pattern_tables[0xb] = 0x82;
    video_ram.pattern_tables[0xc] = 0x00;
    video_ram.pattern_tables[0xd] = 0x82;
    video_ram.pattern_tables[0xe] = 0x82;
    video_ram.pattern_tables[0xf] = 0x00;
    let expected_result: Vec<Vec<u8>> = vec![
        vec![0, 0, 0, 1, 0, 0, 0, 0],
        vec![0, 0, 2, 0, 2, 0, 0, 0],
        vec![0, 3, 0, 0, 0, 3, 0, 0],
        vec![2, 0, 0, 0, 0, 0, 2, 0],
        vec![1, 1, 1, 1, 1, 1, 1, 0],
        vec![2, 0, 0, 0, 0, 0, 2, 0],
        vec![3, 0, 0, 0, 0, 0, 3, 0],
        vec![0, 0, 0, 0, 0, 0, 0, 0],
    ];
    assert_eq!(expected_result, video_ram.get_tile(0));
}
