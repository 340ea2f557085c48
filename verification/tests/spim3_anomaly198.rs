use cornix_prospector_rmk::lcd::spim3_anomaly198::{ALL_RAM_BLOCKS, occupied_ram_blocks};

#[test]
fn empty_buffer_names_no_block() {
    assert_eq!(occupied_ram_blocks(0x2000_0000, 0), 0);
}

#[test]
fn buffer_outside_ram_names_every_block() {
    assert_eq!(occupied_ram_blocks(0x1000, 16), ALL_RAM_BLOCKS);
    assert_eq!(occupied_ram_blocks(0x2FFF_FFF0, 16), ALL_RAM_BLOCKS);
    assert_eq!(occupied_ram_blocks(usize::MAX, 2), ALL_RAM_BLOCKS);
}

#[test]
fn blocks_from_start_to_end() {
    assert_eq!(occupied_ram_blocks(0x2000_0000, 1), 0b1);
    assert_eq!(occupied_ram_blocks(0x2000_1FFF, 2), 0b11);
    assert_eq!(occupied_ram_blocks(0x2000_4000, 0x2000), 0b100);
    assert_eq!(occupied_ram_blocks(0x2000_6000, 0x6001), 0x78);
}

#[test]
fn top_block_is_folded_into_one_flag() {
    assert_eq!(occupied_ram_blocks(0x2001_0000, 4), 0x100);
    assert_eq!(occupied_ram_blocks(0x2003_0000, 0x1000), 0x100);
}

#[test]
fn walk_stops_at_the_limit() {
    assert_eq!(occupied_ram_blocks(0x2000_0000, 0x4_0000), 0x1FF);
    assert_eq!(occupied_ram_blocks(0x2000_E000, 0x8000), 0x180);
}
