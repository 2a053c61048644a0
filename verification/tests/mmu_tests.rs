use rusty_boy::joypad::Joypad;
use rusty_boy::mmu::Mmu;
use rusty_boy::rom::Rom;

fn plain_mmu() -> Mmu {
    // A cartridge without a bank controller.
    let rom_data = vec![0u8; 0x8000];
    let mut mmu = Mmu::new(Rom::new(rom_data), Joypad::new());
    mmu.reset();
    mmu
}

fn mbc1_mmu() -> Mmu {
    let mut rom_data = vec![0u8; 0x8000];
    rom_data[0x147] = 0x01;
    rom_data[0x148] = 0x06;
    let mut mmu = Mmu::new(Rom::new(rom_data), Joypad::new());
    mmu.reset();
    mmu
}

#[test]
fn wram_write_then_read_returns_value() {
    let mut mmu = plain_mmu();
    mmu.write_byte(0xC000, 0x5A);
    assert_eq!(mmu.read_byte(0xC000), 0x5A);
    mmu.write_byte(0xDDFF, 0xA5);
    assert_eq!(mmu.read_byte(0xDDFF), 0xA5);
    mmu.write_byte(0xD123, 0xFF);
    assert_eq!(mmu.read_byte(0xD123), 0xFF);
}

#[test]
fn hram_write_then_read_returns_value() {
    let mut mmu = plain_mmu();
    mmu.write_byte(0xFF80, 0x12);
    assert_eq!(mmu.read_byte(0xFF80), 0x12);
    mmu.write_byte(0xFFFE, 0x34);
    assert_eq!(mmu.read_byte(0xFFFE), 0x34);
}

#[test]
fn div_write_resets_to_zero() {
    let mut mmu = plain_mmu();
    mmu.increment_divider_register();
    mmu.increment_divider_register();
    assert_eq!(mmu.read_byte(0xFF04), 2);
    mmu.write_byte(0xFF04, 0xAB);
    assert_eq!(mmu.read_byte(0xFF04), 0);
}

#[test]
fn ly_write_resets_to_zero() {
    let mut mmu = plain_mmu();
    mmu.update_scanline();
    mmu.update_scanline();
    mmu.update_scanline();
    assert_eq!(mmu.read_byte(0xFF44), 3);
    mmu.write_byte(0xFF44, 0x90);
    assert_eq!(mmu.read_byte(0xFF44), 0);
}

#[test]
fn rom_region_write_does_not_store_value() {
    let mut mmu = plain_mmu();
    let before = mmu.read_byte(0x1234);
    mmu.write_byte(0x1234, 0x99);
    // The write is a bank-control write: the ROM window still shows the
    // cartridge contents.
    assert_eq!(mmu.read_byte(0x1234), before);

    let mut mmu2 = mbc1_mmu();
    let before2 = mmu2.read_byte(0x0042);
    mmu2.write_byte(0x0042, 0x77);
    assert_eq!(mmu2.read_byte(0x0042), before2);
}

#[test]
fn echo_region_write_mirrors_into_wram() {
    let mut mmu = plain_mmu();
    mmu.write_byte(0xE000, 0x42);
    assert_eq!(mmu.read_byte(0xC000), 0x42);
    assert_eq!(mmu.read_byte(0xE000), 0x42);
    // And echo reads pass through to WRAM writes.
    mmu.write_byte(0xC100, 0x24);
    assert_eq!(mmu.read_byte(0xE100), 0x24);
}

#[test]
fn prohibited_region_ignores_writes_and_reads_open_bus() {
    let mut mmu = plain_mmu();
    mmu.write_byte(0xFEA0, 0x55);
    assert_eq!(mmu.read_byte(0xFEA0), 0xFF);
    assert_eq!(mmu.read_byte(0xFEFF), 0xFF);
}

#[test]
fn restricted_oam_reads_garbage_and_drops_writes() {
    let mut mmu = plain_mmu();
    mmu.write_byte(0xFE00, 0x11);
    assert_eq!(mmu.read_byte(0xFE00), 0x11);
    mmu.restrict_oam_access();
    assert_eq!(mmu.read_byte(0xFE00), 0xFF);
    mmu.write_byte(0xFE00, 0x22);
    mmu.open_oam_access();
    assert_eq!(mmu.read_byte(0xFE00), 0x11);
}

#[test]
fn restricted_vram_reads_garbage_and_drops_writes() {
    let mut mmu = plain_mmu();
    mmu.write_byte(0x8000, 0x33);
    assert_eq!(mmu.read_byte(0x8000), 0x33);
    mmu.restrict_vram_access();
    assert_eq!(mmu.read_byte(0x8000), 0xFF);
    mmu.write_byte(0x8000, 0x44);
    mmu.open_vram_access();
    assert_eq!(mmu.read_byte(0x8000), 0x33);
}

#[test]
fn dma_copies_160_bytes_into_oam() {
    let mut mmu = plain_mmu();
    for i in 0..0xA0u16 {
        mmu.write_byte(0xC000 + i, i as u8);
    }
    mmu.write_byte(0xFF46, 0xC0);
    for i in 0..0xA0u16 {
        assert_eq!(mmu.read_byte(0xFE00 + i), i as u8);
    }
}

#[test]
fn joypad_register_reports_selected_row() {
    let mut mmu = plain_mmu();
    // Select the direction row (bit 4 low): all buttons released, and
    // the unused bits 7-6 read as 1.
    mmu.write_byte(0xFF00, 0x20);
    assert_eq!(mmu.read_byte(0xFF00), 0xEF);
    // Press Right (button 0) and read the row again.
    mmu.set_button_state(0);
    mmu.write_byte(0xFF00, 0x20);
    assert_eq!(mmu.read_byte(0xFF00), 0xEE);
    // Releasing restores the prior low nibble.
    mmu.reset_button_state(0);
    mmu.write_byte(0xFF00, 0x20);
    assert_eq!(mmu.read_byte(0xFF00), 0xEF);
    // With neither row selected the low nibble reads as released.
    mmu.set_button_state(4);
    mmu.write_byte(0xFF00, 0x30);
    assert_eq!(mmu.read_byte(0xFF00), 0xFF);
}

#[test]
fn timer_control_write_raises_frequency_changed_flag() {
    let mut mmu = plain_mmu();
    assert!(!mmu.is_timer_frequency_changed());
    mmu.write_byte(0xFF07, 0x05);
    assert!(mmu.is_timer_frequency_changed());
    assert_eq!(mmu.read_byte(0xFF07), 0x05);
    mmu.update_timer_frequency_changed(false);
    assert!(!mmu.is_timer_frequency_changed());
}

#[test]
fn reset_leaves_documented_boot_values() {
    let mmu = plain_mmu();
    assert_eq!(mmu.read_byte(0xFF05), 0x00);
    assert_eq!(mmu.read_byte(0xFF06), 0x00);
    assert_eq!(mmu.read_byte(0xFF07), 0x00);
    assert_eq!(mmu.read_byte(0xFF40), 0x91);
    assert_eq!(mmu.read_byte(0xFF47), 0xFC);
    assert_eq!(mmu.read_byte(0xFF48), 0xFF);
    assert_eq!(mmu.read_byte(0xFF49), 0xFF);
    assert_eq!(mmu.read_byte(0xFF00), 0xFF);
    assert_eq!(mmu.read_byte(0xFFFF), 0x00);
}

#[test]
fn external_ram_roundtrip_without_controller() {
    let mut mmu = plain_mmu();
    mmu.write_byte(0xA000, 0x7E);
    assert_eq!(mmu.read_byte(0xA000), 0x7E);
    let snapshot = mmu.get_external_ram();
    assert_eq!(snapshot.len(), 0x2000);
    assert_eq!(snapshot[0], 0x7E);
    mmu.load_external_ram(vec![9u8; 4]);
    assert_eq!(mmu.read_byte(0xA000), 9);
    assert_eq!(mmu.read_byte(0xA003), 9);
}

#[test]
fn external_ram_roundtrip_through_mbc1() {
    let mut mmu = mbc1_mmu();
    // RAM stays gated until the enable write.
    mmu.write_byte(0xA123, 0x55);
    assert_eq!(mmu.read_byte(0xA123), 0x00);
    mmu.write_byte(0x0000, 0x0A);
    mmu.write_byte(0xA123, 0x77);
    assert_eq!(mmu.read_byte(0xA123), 0x77);
    let snapshot = mmu.get_external_ram();
    assert_eq!(snapshot[0x123], 0x77);
}
