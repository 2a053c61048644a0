use rusty_boy::joypad::Joypad;
use rusty_boy::mmu::Mmu;
use rusty_boy::ppu::Ppu;
use rusty_boy::rom::Rom;
use rusty_boy::timer::Timer;

fn fresh_mmu() -> Mmu {
    let rom_data = vec![0u8; 0x8000];
    let mut mmu = Mmu::new(Rom::new(rom_data), Joypad::new());
    mmu.reset();
    mmu
}

#[test]
fn timer_overflow_reloads_from_tma_and_raises_interrupt() {
    let mut mmu = fresh_mmu();
    let mut timer = Timer::new();
    // Enabled at the /16 rate, reloading 0x42.
    mmu.write_byte(0xFF07, 0x05);
    mmu.write_byte(0xFF06, 0x42);
    assert_eq!(mmu.read_byte(0xFF05), 0);

    // One TIMA tick per 16 T-cycles: the counter visits 1..=255.
    for k in 1..=255u32 {
        timer.update(&mut mmu, 16);
        assert_eq!(mmu.read_byte(0xFF05) as u32, k);
    }
    // The 256th tick wraps TIMA, reloads TMA and raises the Timer
    // interrupt.
    timer.update(&mut mmu, 16);
    assert_eq!(mmu.read_byte(0xFF05), 0x42);
    assert_eq!(mmu.read_byte(0xFF0F) & 0x04, 0x04);
}

#[test]
fn disabled_timer_leaves_tima_alone() {
    let mut mmu = fresh_mmu();
    let mut timer = Timer::new();
    mmu.write_byte(0xFF07, 0x01);
    for _ in 0..100 {
        timer.update(&mut mmu, 16);
    }
    assert_eq!(mmu.read_byte(0xFF05), 0);
}

#[test]
fn divider_increments_every_256_cycles() {
    let mut mmu = fresh_mmu();
    let mut timer = Timer::new();
    for _ in 0..16 {
        timer.update(&mut mmu, 16);
    }
    assert_eq!(mmu.read_byte(0xFF04), 1);
    for _ in 0..32 {
        timer.update(&mut mmu, 16);
    }
    assert_eq!(mmu.read_byte(0xFF04), 3);
}

#[test]
fn stat_mode_walks_2_3_0_within_a_scanline() {
    let mut mmu = fresh_mmu();
    let mut ppu = Ppu::new();
    assert_eq!(mmu.read_byte(0xFF44), 0);

    // The first 80 dots are OAM search.
    ppu.update_graphics(&mut mmu, 0);
    assert_eq!(mmu.read_byte(0xFF41) & 0x3, 2);

    // Past 80 dots: pixel transfer.
    ppu.update_graphics(&mut mmu, 84);
    ppu.update_graphics(&mut mmu, 0);
    assert_eq!(mmu.read_byte(0xFF41) & 0x3, 3);

    // Past 252 dots: HBlank.
    ppu.update_graphics(&mut mmu, 172);
    ppu.update_graphics(&mut mmu, 0);
    assert_eq!(mmu.read_byte(0xFF41) & 0x3, 0);
}

#[test]
fn vblank_entry_raises_interrupt_and_mode_1() {
    let mut mmu = fresh_mmu();
    let mut ppu = Ppu::new();

    // Run 144 full scanlines.
    for _ in 0..144 {
        ppu.update_graphics(&mut mmu, 228);
        ppu.update_graphics(&mut mmu, 228);
    }
    assert_eq!(mmu.read_byte(0xFF44), 144);
    // Entering line 144 set IF bit 0.
    assert_eq!(mmu.read_byte(0xFF0F) & 0x01, 0x01);
    ppu.update_graphics(&mut mmu, 0);
    assert_eq!(mmu.read_byte(0xFF41) & 0x3, 1);
}

#[test]
fn scanline_counter_rolls_ly_back_after_153() {
    let mut mmu = fresh_mmu();
    let mut ppu = Ppu::new();
    for _ in 0..155 {
        ppu.update_graphics(&mut mmu, 228);
        ppu.update_graphics(&mut mmu, 228);
    }
    // LY has wrapped back into the visible range.
    assert!(mmu.read_byte(0xFF44) < 144);
}

#[test]
fn disabled_lcd_rests_at_line_zero_mode_zero() {
    let mut mmu = fresh_mmu();
    let mut ppu = Ppu::new();
    ppu.update_graphics(&mut mmu, 228);
    ppu.update_graphics(&mut mmu, 250);
    assert_eq!(mmu.read_byte(0xFF44), 1);
    mmu.write_byte(0xFF40, 0x00);
    ppu.update_graphics(&mut mmu, 100);
    assert_eq!(mmu.read_byte(0xFF44), 0);
    assert_eq!(mmu.read_byte(0xFF41) & 0x3, 0);
}

#[test]
fn coincidence_flag_follows_lyc() {
    let mut mmu = fresh_mmu();
    let mut ppu = Ppu::new();
    // LY = 0 = LYC at boot: the coincidence bit is set.
    ppu.update_graphics(&mut mmu, 0);
    assert_eq!(mmu.read_byte(0xFF41) & 0x4, 0x4);
    // After a scanline LY = 1 != LYC: the bit clears.
    ppu.update_graphics(&mut mmu, 228);
    ppu.update_graphics(&mut mmu, 228);
    ppu.update_graphics(&mut mmu, 0);
    assert_eq!(mmu.read_byte(0xFF41) & 0x4, 0);
}

#[test]
fn coincidence_with_stat_source_raises_lcd_stat_interrupt() {
    let mut mmu = fresh_mmu();
    let mut ppu = Ppu::new();
    // Enable the LYC source and match line 1.
    mmu.write_byte(0xFF41, 0x40);
    mmu.write_byte(0xFF45, 1);
    ppu.update_graphics(&mut mmu, 228);
    ppu.update_graphics(&mut mmu, 228);
    ppu.update_graphics(&mut mmu, 0);
    assert_eq!(mmu.read_byte(0xFF0F) & 0x02, 0x02);
}

#[test]
fn screen_starts_black_and_sized() {
    let ppu = Ppu::new();
    let screen = ppu.get_screen();
    assert_eq!(screen.len(), 160 * 144 * 3);
    assert!(screen.iter().all(|b| *b == 0));
}

#[test]
fn background_rendering_paints_a_scanline() {
    let mut mmu = fresh_mmu();
    let mut ppu = Ppu::new();
    // A solid tile 0: low plane all ones -> color index 1 everywhere.
    for row in 0..8u16 {
        mmu.write_byte(0x8000 + row * 2, 0xFF);
    }
    // The boot palette 0xFC maps index 1 to black, and boot LCDC uses
    // unsigned addressing from 0x8000: the zero-filled tile map points
    // every cell at the solid tile. The chunk sizes land the draw in
    // HBlank, when VRAM is open to the renderer.
    for _ in 0..2 {
        ppu.update_graphics(&mut mmu, 255);
        ppu.update_graphics(&mut mmu, 205);
    }
    let screen = ppu.get_screen();
    assert_eq!(screen[480], 0x00);
    // With signed addressing the map points at the blank tile 0 of the
    // 0x9000 area instead, leaving the next drawn row white.
    mmu.write_byte(0xFF40, 0x81);
    ppu.update_graphics(&mut mmu, 255);
    ppu.update_graphics(&mut mmu, 205);
    let screen = ppu.get_screen();
    assert_eq!(screen[3 * 480], 0xFF);
}

#[test]
fn sprite_rendering_paints_over_the_background() {
    let mut mmu = fresh_mmu();
    let mut ppu = Ppu::new();
    // OAM entry 0: a sprite at the top-left corner using tile 1.
    mmu.write_byte(0xFE00, 16);
    mmu.write_byte(0xFE01, 8);
    mmu.write_byte(0xFE02, 1);
    mmu.write_byte(0xFE03, 0);
    // Tile 1 is solid color index 1; OBP0 (boot 0xFF) maps it to black.
    for row in 0..8u16 {
        mmu.write_byte(0x8010 + row * 2, 0xFF);
    }
    // Enable sprites next to the background.
    mmu.write_byte(0xFF40, 0x93);
    ppu.update_graphics(&mut mmu, 255);
    ppu.update_graphics(&mut mmu, 205);
    let screen = ppu.get_screen();
    // Row 1: the first eight pixels belong to the sprite, the ninth is
    // bare background.
    assert_eq!(screen[480], 0x00);
    assert_eq!(screen[480 + 7 * 3], 0x00);
    assert_eq!(screen[480 + 8 * 3], 0xFF);
}

#[test]
fn debug_line_formats_the_last_background_palette() {
    let mmu = fresh_mmu();
    assert_eq!(mmu.debug(), "BG Palette 7: 0000 0000 0000 0000");
}

#[test]
fn vram_tile_view_decodes_the_tile_region() {
    let mut mmu = fresh_mmu();
    let ppu = Ppu::new();
    for row in 0..8u16 {
        mmu.write_byte(0x8000 + row * 2, 0xFF);
    }
    let tiles = ppu.get_vram_tiles(&mmu);
    assert_eq!(tiles.len(), 128 * 192 * 3);
    // Tile 0 pixel (0,0) has color index 1: black under the boot
    // palette.
    assert_eq!(tiles[0], 0x00);
    // Tile 1 is blank: white.
    assert_eq!(tiles[8 * 3], 0xFF);
}
