use gbrustemu::mmu::MMU;
use gbrustemu::ppu::{
    DARKEST_GREEN, DARK_GREEN, LIGHTEST_GREEN, LIGHT_GREEN, PPU, SCREEN_HEIGHT, SCREEN_WIDTH,
};

fn write_tile(mmu: &mut MMU, index: u16, bytes: &[u8]) {
    for (i, b) in bytes.iter().enumerate() {
        mmu.write_byte(0x8000 + index * 16 + i as u16, *b);
    }
}

#[test]
fn new_ppu_buffers() {
    let ppu = PPU::new();
    assert_eq!(ppu.get_viewport().len(), SCREEN_WIDTH * SCREEN_HEIGHT);
    assert_eq!(ppu.get_background_buffer().len(), 256 * 256);
    assert!(ppu.get_viewport().iter().all(|&c| c == LIGHTEST_GREEN));
    assert_eq!(ppu.get_mode(), 0);
    assert_eq!(ppu.get_mode_clock(), 0);
}

#[test]
fn register_getters_read_memory() {
    let mut mmu = MMU::new();
    let ppu = PPU::new();
    mmu.write_byte(0xFF40, 0x91);
    mmu.write_byte(0xFF42, 2);
    mmu.write_byte(0xFF43, 3);
    mmu.write_byte(0xFF44, 4);
    mmu.write_byte(0xFF45, 5);
    mmu.write_byte(0xFF47, 0xE4);
    assert_eq!(ppu.get_lcdc(&mmu), 0x91);
    assert_eq!(ppu.get_scy(&mmu), 2);
    assert_eq!(ppu.get_scx(&mmu), 3);
    assert_eq!(ppu.get_ly(&mmu), 4);
    assert_eq!(ppu.get_lyc(&mmu), 5);
    assert_eq!(ppu.get_bgp(&mmu), 0xE4);
    assert!(ppu.is_lcd_enable(&mmu));
    mmu.write_byte(0xFF40, 0x11);
    assert!(!ppu.is_lcd_enable(&mmu));
}

#[test]
fn palette_slots_and_colors() {
    let mut mmu = MMU::new();
    let ppu = PPU::new();
    mmu.write_byte(0xFF47, 0b1110_0100);
    for pair in 0..4u8 {
        assert_eq!(ppu.transform_pair_into_bgp_palette(&mmu, pair), pair);
    }
    mmu.write_byte(0xFF47, 0b0001_1011);
    assert_eq!(ppu.transform_pair_into_bgp_palette(&mmu, 0), 3);
    assert_eq!(ppu.transform_pair_into_bgp_palette(&mmu, 1), 2);
    assert_eq!(ppu.transform_pair_into_bgp_palette(&mmu, 2), 1);
    assert_eq!(ppu.transform_pair_into_bgp_palette(&mmu, 3), 0);
    assert_eq!(ppu.transform_from_bgp_to_minifb_color(0), LIGHTEST_GREEN);
    assert_eq!(ppu.transform_from_bgp_to_minifb_color(1), LIGHT_GREEN);
    assert_eq!(ppu.transform_from_bgp_to_minifb_color(2), DARK_GREEN);
    assert_eq!(ppu.transform_from_bgp_to_minifb_color(3), DARKEST_GREEN);
}

#[test]
fn tile_of_first_plane_decodes_to_index_two() {
    let mut mmu = MMU::new();
    let ppu = PPU::new();
    let bytes: Vec<u8> = [0xFFu8, 0x00].iter().cycle().take(16).cloned().collect();
    write_tile(&mut mmu, 0, &bytes);
    mmu.write_byte(0xFF47, 0b1110_0100);
    let tile = ppu.get_tile(&mmu, 0x8000);
    assert_eq!(tile.to_vec(), bytes);
    let pixels = ppu.transform_tile_to_minifb_tile(&mmu, tile);
    assert_eq!(pixels.len(), 64);
    assert!(pixels.iter().all(|&c| c == DARK_GREEN));
}

#[test]
fn tile_columns_follow_bit_order() {
    let mut mmu = MMU::new();
    let ppu = PPU::new();
    mmu.write_byte(0xFF47, 0b1110_0100);
    let mut tile = [0u8; 16];
    tile[0] = 0b1000_0000;
    tile[1] = 0b1000_0001;
    let pixels = ppu.transform_tile_to_minifb_tile(&mmu, tile);
    assert_eq!(pixels[0], DARKEST_GREEN);
    assert_eq!(pixels[7], LIGHT_GREEN);
    assert_eq!(pixels[1], LIGHTEST_GREEN);
    assert_eq!(pixels[8], LIGHTEST_GREEN);
}

#[test]
fn tile_set_and_map_reads() {
    let mut mmu = MMU::new();
    let ppu = PPU::new();
    write_tile(&mut mmu, 255, &[7u8; 16]);
    mmu.write_byte(0x9800 + 1023, 9);
    let set = ppu.get_tile_set(&mmu);
    assert_eq!(set[255], [7u8; 16]);
    assert_eq!(set[0], [0u8; 16]);
    let map = ppu.get_tile_map(&mmu);
    assert_eq!(map[1023], 9);
    assert_eq!(map[0], 0);
}

#[test]
fn background_and_viewport_follow_tile_map_and_scroll() {
    let mut mmu = MMU::new();
    let mut ppu = PPU::new();
    mmu.write_byte(0xFF47, 0b1110_0100);
    write_tile(&mut mmu, 1, &[0xFF; 16]);
    mmu.write_byte(0x9801, 1);
    ppu.populate_background_buffer(&mmu);
    let bg = ppu.get_background_buffer().clone();
    assert_eq!(bg[0], LIGHTEST_GREEN);
    assert_eq!(bg[8], DARKEST_GREEN);
    assert_eq!(bg[7 * 256 + 15], DARKEST_GREEN);
    assert_eq!(bg[8 * 256 + 8], LIGHTEST_GREEN);
    assert_eq!(bg[16], LIGHTEST_GREEN);

    mmu.write_byte(0xFF43, 8);
    ppu.transform_background_buffer_into_screen(&mmu);
    let v = ppu.get_viewport();
    assert_eq!(v.len(), 160 * 144);
    assert_eq!(v[0], DARKEST_GREEN);
    assert_eq!(v[8], LIGHTEST_GREEN);

    mmu.write_byte(0xFF43, 250);
    mmu.write_byte(0xFF42, 252);
    ppu.transform_background_buffer_into_screen(&mmu);
    let v = ppu.get_viewport();
    assert_eq!(v.len(), 160 * 144);
    assert_eq!(v[4 * 160 + 6 + 8], DARKEST_GREEN);
    assert_eq!(v[4 * 160 + 6 + 7], LIGHTEST_GREEN);
}

fn enabled_store() -> MMU {
    let mut mmu = MMU::new();
    mmu.write_byte(0xFF40, 0x80);
    mmu
}

#[test]
fn scanline_advances_after_one_period() {
    let mut mmu = enabled_store();
    let mut ppu = PPU::new();
    ppu.step(200, &mut mmu);
    assert_eq!(ppu.get_mode(), 3);
    assert_eq!(ppu.get_ly(&mmu), 0);
    ppu.step(256, &mut mmu);
    assert_eq!(ppu.get_ly(&mmu), 1);
    assert_eq!(ppu.get_mode_clock(), 0);
    assert_eq!(ppu.get_mode(), 2);
    assert_eq!(mmu.read_byte(0xFF41) & 0b111, 2);
}

#[test]
fn single_step_of_one_period_from_power_on() {
    let mut mmu = enabled_store();
    let mut ppu = PPU::new();
    ppu.step(456, &mut mmu);
    assert_eq!(ppu.get_ly(&mmu), 1);
    assert_eq!(ppu.get_mode_clock(), 0);
    assert_eq!(ppu.get_mode(), 2);
}

#[test]
fn clock_below_one_period_keeps_scanline() {
    let mut mmu = enabled_store();
    let mut ppu = PPU::new();
    ppu.step(455, &mut mmu);
    assert_eq!(ppu.get_ly(&mmu), 0);
    assert_eq!(ppu.get_mode_clock(), 455);
    assert_eq!(ppu.get_mode(), 0);
}

#[test]
fn modes_follow_thresholds() {
    let mut mmu = enabled_store();
    let mut ppu = PPU::new();
    ppu.step(80, &mut mmu);
    assert_eq!(ppu.get_mode(), 2);
    ppu.step(1, &mut mmu);
    assert_eq!(ppu.get_mode(), 3);
    ppu.step(171, &mut mmu);
    assert_eq!(ppu.get_mode(), 3);
    ppu.step(1, &mut mmu);
    assert_eq!(ppu.get_mode(), 0);
    assert_eq!(mmu.read_byte(0xFF41) & 0b11, 0);
}

#[test]
fn coincidence_flag_and_upper_status_bits() {
    let mut mmu = enabled_store();
    let mut ppu = PPU::new();
    mmu.write_byte(0xFF41, 0b0100_0000);
    mmu.write_byte(0xFF45, 0);
    ppu.step(4, &mut mmu);
    assert_eq!(mmu.read_byte(0xFF41), 0b0100_0110);
    mmu.write_byte(0xFF45, 7);
    ppu.step(4, &mut mmu);
    assert_eq!(mmu.read_byte(0xFF41), 0b0100_0010);
}

#[test]
fn last_visible_scanline_enters_vblank() {
    let mut mmu = enabled_store();
    let mut ppu = PPU::new();
    mmu.write_byte(0xFF44, 144);
    ppu.step(460, &mut mmu);
    assert_eq!(ppu.get_ly(&mmu), 145);
    assert_eq!(ppu.get_mode(), 1);
    assert_eq!(ppu.get_mode_clock(), 460);
    ppu.step(4000, &mut mmu);
    assert_eq!(ppu.get_ly(&mmu), 145);
    assert_eq!(ppu.get_mode(), 1);
    ppu.step(200, &mut mmu);
    assert_eq!(ppu.get_mode(), 2);
    assert_eq!(ppu.get_mode_clock(), 0);
    assert_eq!(ppu.get_ly(&mmu), 145);
}

#[test]
fn scanline_wraps_after_full_frame() {
    let mut mmu = enabled_store();
    let mut ppu = PPU::new();
    mmu.write_byte(0xFF44, 155);
    ppu.step(460, &mut mmu);
    assert_eq!(ppu.get_mode(), 1);
    ppu.step(4200, &mut mmu);
    assert_eq!(ppu.get_ly(&mmu), 0);
    assert_eq!(ppu.get_mode(), 2);
}

#[test]
fn display_off_changes_nothing() {
    let mut mmu = MMU::new();
    let mut ppu = PPU::new();
    mmu.write_byte(0x8000, 0xFF);
    ppu.step(1000, &mut mmu);
    assert_eq!(ppu.get_mode_clock(), 0);
    assert_eq!(mmu.read_byte(0xFF41), 0);
    assert!(mmu.is_vram_dirty());
}

#[test]
fn dirty_video_memory_is_redrawn_on_oam_search() {
    let mut mmu = enabled_store();
    let mut ppu = PPU::new();
    mmu.write_byte(0xFF47, 0b1110_0100);
    write_tile(&mut mmu, 0, &[0xFF; 16]);
    assert!(mmu.is_vram_dirty());
    ppu.step(4, &mut mmu);
    assert!(!mmu.is_vram_dirty());
    assert!(!mmu.is_viewport_dirty());
    assert!(ppu.get_viewport().iter().all(|&c| c == DARKEST_GREEN));
}

#[test]
fn dirty_scroll_is_recropped_on_oam_search() {
    let mut mmu = enabled_store();
    let mut ppu = PPU::new();
    mmu.write_byte(0xFF43, 5);
    ppu.step(300, &mut mmu);
    assert!(mmu.is_viewport_dirty());
    ppu.step(200, &mut mmu);
    assert_eq!(ppu.get_mode(), 2);
    assert!(!mmu.is_viewport_dirty());
}

#[test]
fn coincidence_uses_scanline_after_frame_wrap() {
    let mut mmu = enabled_store();
    let mut ppu = PPU::new();
    mmu.write_byte(0xFF44, 198);
    mmu.write_byte(0xFF45, 0);
    ppu.step(4000, &mut mmu);
    assert_eq!(ppu.get_ly(&mmu), 199);
    assert_eq!(mmu.read_byte(0xFF41) & 0b111, 1);
    ppu.step(1000, &mut mmu);
    assert_eq!(ppu.get_ly(&mmu), 0);
    assert_eq!(ppu.get_mode(), 2);
    assert_eq!(mmu.read_byte(0xFF41) & 0b111, 0b110);
}
