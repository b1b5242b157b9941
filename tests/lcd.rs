use gb_core::cartridge::Cartridge;
use gb_core::lcd::{Color, Lcd, LcdControl};
use gb_core::mmu::Mmu;

fn bus() -> Mmu {
    Mmu::new(Cartridge::new(vec![0u8; 0x8000]).unwrap())
}

#[test]
fn ly_visits_each_line_once_per_frame() {
    let mut mmu = bus();
    mmu.writeb(0xFF40, 0x91);
    mmu.update(200);
    let mut seen = [0u32; 154];
    for _ in 0..154 {
        seen[mmu.readb(0xFF44) as usize] += 1;
        mmu.update(456);
    }
    assert!(seen.iter().all(|&n| n == 1));
    let start = (mmu.lcd.lcd_status.curr_line, mmu.lcd.scanlines_cycles);
    mmu.update(70224);
    assert_eq!((mmu.lcd.lcd_status.curr_line, mmu.lcd.scanlines_cycles), start);
}

#[test]
fn ly_write_resets() {
    let mut mmu = bus();
    mmu.writeb(0xFF40, 0x91);
    mmu.update(456 * 10 + 3);
    assert_eq!(mmu.readb(0xFF44), 10);
    mmu.writeb(0xFF44, 0x99);
    assert_eq!(mmu.readb(0xFF44), 0);
}

#[test]
fn modes_follow_the_line() {
    let mut mmu = bus();
    mmu.writeb(0xFF40, 0x91);
    mmu.update(10);
    assert_eq!(mmu.readb(0xFF41) & 0x03, 2);
    mmu.update(80);
    assert_eq!(mmu.readb(0xFF41) & 0x03, 3);
    mmu.update(200);
    assert_eq!(mmu.readb(0xFF41) & 0x03, 0);
    mmu.update(456 * 144);
    assert_eq!(mmu.readb(0xFF44), 144);
    assert_eq!(mmu.readb(0xFF41) & 0x03, 1);
    assert_eq!(mmu.readb(0xFF0F) & 0x01, 0x01);
}

#[test]
fn lcd_off_stops_and_clears() {
    let mut mmu = bus();
    mmu.writeb(0xFF40, 0x91);
    mmu.update(456 * 3 + 100);
    mmu.writeb(0xFF40, 0x11);
    assert_eq!(mmu.readb(0xFF44), 0);
    mmu.update(1000);
    assert_eq!(mmu.readb(0xFF44), 0);
    assert!(mmu.lcd.screen_data.iter().all(|col| col.iter().all(|&c| c == Color::White)));
}

#[test]
fn lyc_match_raises_stat() {
    let mut mmu = bus();
    mmu.writeb(0xFF40, 0x91);
    mmu.writeb(0xFF45, 2);
    mmu.writeb(0xFF41, 0x40);
    mmu.update(456);
    assert_eq!(mmu.readb(0xFF0F) & 0x02, 0);
    mmu.update(456);
    assert_eq!(mmu.readb(0xFF0F) & 0x02, 0x02);
    assert_eq!(mmu.readb(0xFF41) & 0x44, 0x44);
}

#[test]
fn lcdc_reads_back() {
    for v in 0..=255u8 {
        assert_eq!(LcdControl::from_u8(v).to_u8(), v);
    }
}

#[test]
fn colors_map_to_rgb() {
    assert_eq!(Color::White.rgb(), (255, 255, 255));
    assert_eq!(Color::LightGrey.rgb(), (192, 192, 192));
    assert_eq!(Color::DarkGrey.rgb(), (96, 96, 96));
    assert_eq!(Color::Black.rgb(), (0, 0, 0));
}

#[test]
fn background_line_is_drawn() {
    let mut mmu = bus();
    // Tile 0, row 0: low byte all ones, high byte 0x0F: ids 1,1,1,1,3,3,3,3.
    mmu.writeb(0x8000, 0xFF);
    mmu.writeb(0x8001, 0x0F);
    mmu.writeb(0xFF47, 0xE4);
    mmu.writeb(0xFF40, 0x91);
    mmu.update(260);
    let line: Vec<Color> = (0..8).map(|x| mmu.lcd.screen_data[x][0]).collect();
    assert_eq!(line[..4], [Color::LightGrey; 4]);
    assert_eq!(line[4..], [Color::Black; 4]);
    assert_eq!(mmu.lcd.screen_data[8][0], Color::LightGrey);
    assert_eq!(mmu.lcd.screen_data[0][1], Color::White);
}

#[test]
fn signed_tile_data_addressing() {
    let mut mmu = bus();
    // Map entry 0 names tile 0x80, which lives at 0x8800 in signed mode.
    mmu.writeb(0x9800, 0x80);
    mmu.writeb(0x8800, 0x80);
    mmu.writeb(0x8801, 0x80);
    mmu.writeb(0xFF47, 0xE4);
    mmu.writeb(0xFF40, 0x81);
    mmu.update(260);
    assert_eq!(mmu.lcd.screen_data[0][0], Color::Black);
    assert_eq!(mmu.lcd.screen_data[1][0], Color::White);
}

#[test]
fn sprite_is_drawn_over_background() {
    let mut mmu = bus();
    // Sprite 0 at screen (0, 0) with tile 1; tile 1 row 0 is all id 2.
    mmu.writeb(0xFE00, 16);
    mmu.writeb(0xFE01, 8);
    mmu.writeb(0xFE02, 1);
    mmu.writeb(0xFE03, 0);
    mmu.writeb(0x8010, 0x00);
    mmu.writeb(0x8011, 0xF0);
    mmu.writeb(0xFF48, 0xE4);
    mmu.writeb(0xFF40, 0x93);
    mmu.update(260);
    assert_eq!(mmu.lcd.screen_data[0][0], Color::DarkGrey);
    assert_eq!(mmu.lcd.screen_data[3][0], Color::DarkGrey);
    // Id 0 is transparent: the white background shows.
    assert_eq!(mmu.lcd.screen_data[4][0], Color::White);
}

#[test]
fn palette_registers_read_back() {
    let mut lcd = Lcd::new();
    for (addr, v) in [(0xFF42u16, 1u8), (0xFF43, 2), (0xFF4A, 3), (0xFF4B, 4), (0xFF45, 5), (0xFF47, 6), (0xFF48, 7), (0xFF49, 8)] {
        lcd.writeb(addr, v);
        assert_eq!(lcd.readb(addr), v);
    }
}

fn sprite_priority_bus(bg_hi: u8) -> Mmu {
    let mut mmu = bus();
    // Background tile 0, row 0: ids 2 where `bg_hi` has ones.
    mmu.writeb(0x8000, 0x00);
    mmu.writeb(0x8001, bg_hi);
    // Sprite tile 1, row 0: all id 1.
    mmu.writeb(0x8010, 0xFF);
    mmu.writeb(0x8011, 0x00);
    mmu.writeb(0xFF47, 0xE4);
    mmu.writeb(0xFF48, 0x00);
    mmu.writeb(0xFF49, 0xFF);
    // Entry 39: plain sprite through OBP0 (id 1 shows White).
    mmu.writeb(0xFE9C, 16);
    mmu.writeb(0xFE9D, 8);
    mmu.writeb(0xFE9E, 1);
    mmu.writeb(0xFE9F, 0x00);
    // Entry 0: behind the background, through OBP1 (id 1 shows Black).
    mmu.writeb(0xFE00, 16);
    mmu.writeb(0xFE01, 8);
    mmu.writeb(0xFE02, 1);
    mmu.writeb(0xFE03, 0x90);
    mmu.writeb(0xFF40, 0x93);
    mmu.update(260);
    mmu
}

#[test]
fn sprite_behind_background_checks_background_pixel() {
    // The background is DarkGrey: entry 0 stays hidden although entry 39
    // painted the pixel White.
    let mmu = sprite_priority_bus(0xFF);
    assert_eq!(mmu.lcd.screen_data[0][0], Color::White);
    assert_eq!(mmu.lcd.screen_data[7][0], Color::White);
}

#[test]
fn sprite_behind_white_background_is_drawn() {
    let mmu = sprite_priority_bus(0x00);
    assert_eq!(mmu.lcd.screen_data[0][0], Color::Black);
}
