use rusty_boy::joypad::Joypad;
use rusty_boy::mbc::{get_mbc, Mbc, MbcType};
use rusty_boy::mmu::Mmu;
use rusty_boy::rom::Rom;

fn rom_with(cart_type: u8, bank_code: u8, size: usize) -> Rom {
    let mut data = vec![0u8; size];
    data[0x147] = cart_type;
    data[0x148] = bank_code;
    Rom::new(data)
}

fn mmu_with(cart_type: u8, bank_code: u8) -> Mmu {
    let mut data = vec![0u8; 0x8000];
    data[0x147] = cart_type;
    data[0x148] = bank_code;
    let mut mmu = Mmu::new(Rom::new(data), Joypad::new());
    mmu.reset();
    mmu
}

#[test]
fn cartridge_type_selects_the_controller() {
    assert!(get_mbc(&rom_with(0x00, 0, 0x150)).is_none());
    assert!(matches!(
        get_mbc(&rom_with(0x01, 0, 0x150)).unwrap().get_mbc_type(),
        MbcType::MBC1
    ));
    assert!(matches!(
        get_mbc(&rom_with(0x03, 0, 0x150)).unwrap().get_mbc_type(),
        MbcType::MBC1
    ));
    assert!(matches!(
        get_mbc(&rom_with(0x05, 0, 0x150)).unwrap().get_mbc_type(),
        MbcType::MBC2
    ));
    assert!(matches!(
        get_mbc(&rom_with(0x0F, 0, 0x150)).unwrap().get_mbc_type(),
        MbcType::MBC3
    ));
    assert!(matches!(
        get_mbc(&rom_with(0x13, 0, 0x150)).unwrap().get_mbc_type(),
        MbcType::MBC3
    ));
    // Unknown cartridge types fall back to plain ROM.
    assert!(get_mbc(&rom_with(0x42, 0, 0x150)).is_none());
}

#[test]
fn rom_header_bank_counts() {
    assert_eq!(rom_with(0, 0x00, 0x150).get_number_of_banks(), 2);
    assert_eq!(rom_with(0, 0x03, 0x150).get_number_of_banks(), 16);
    assert_eq!(rom_with(0, 0x06, 0x150).get_number_of_banks(), 128);
    assert_eq!(rom_with(0, 0x08, 0x150).get_number_of_banks(), 512);
    assert_eq!(rom_with(0, 0x52, 0x150).get_number_of_banks(), 72);
    assert_eq!(rom_with(0, 0x54, 0x150).get_number_of_banks(), 96);
    assert_eq!(rom_with(0, 0x99, 0x150).get_number_of_banks(), 2);
}

#[test]
fn mbc1_bank_zero_selects_bank_one() {
    // A 128-bank cartridge: bank numbers whose low five bits are zero
    // read back as if those bits were one.
    let mut mmu = mmu_with(0x01, 0x06);
    mmu.write_byte(0x2000, 0x00);
    match &mmu.mbc {
        Some(Mbc::One(m)) => assert_eq!(m.rom_bank, 1),
        _ => panic!("expected an MBC1 controller"),
    }
    mmu.write_byte(0x2000, 0x20);
    match &mmu.mbc {
        Some(Mbc::One(m)) => assert_eq!(m.rom_bank, 0x21),
        _ => panic!("expected an MBC1 controller"),
    }
    mmu.write_byte(0x2000, 0x07);
    match &mmu.mbc {
        Some(Mbc::One(m)) => assert_eq!(m.rom_bank, 0x07),
        _ => panic!("expected an MBC1 controller"),
    }
}

#[test]
fn mbc1_switched_bank_shows_through_the_window() {
    let mut data = vec![0u8; 0x22 * 0x4000];
    data[0x147] = 0x01;
    data[0x148] = 0x06;
    data[0x03 * 0x4000 + 5] = 0xAB;
    data[0x21 * 0x4000 + 5] = 0xCD;
    let mut mmu = Mmu::new(Rom::new(data), Joypad::new());
    mmu.reset();

    mmu.write_byte(0x2000, 0x03);
    assert_eq!(mmu.read_byte(0x4005), 0xAB);
    mmu.write_byte(0x2000, 0x20);
    assert_eq!(mmu.read_byte(0x4005), 0xCD);
}

#[test]
fn mbc1_banking_mode_switches_ram_banks() {
    let mut mmu = mmu_with(0x01, 0x06);
    mmu.write_byte(0x0000, 0x0A);
    // RAM banking mode; select bank 2 and write there.
    mmu.write_byte(0x6000, 0x01);
    mmu.write_byte(0x4000, 0x02);
    mmu.write_byte(0xA000, 0x77);
    assert_eq!(mmu.read_byte(0xA000), 0x77);
    // Bank 0 still holds its own cell.
    mmu.write_byte(0x4000, 0x00);
    assert_eq!(mmu.read_byte(0xA000), 0x00);
}

#[test]
fn mbc1_requests_beyond_capacity_are_masked() {
    // A 2-bank image: selecting bank 3 is reduced modulo the bank count.
    let mut data = vec![0u8; 2 * 0x4000];
    data[0x147] = 0x01;
    data[0x148] = 0x00;
    data[0x4000 + 9] = 0x5E;
    let mut mmu = Mmu::new(Rom::new(data), Joypad::new());
    mmu.reset();
    mmu.write_byte(0x2000, 0x03);
    assert_eq!(mmu.read_byte(0x4009), 0x5E);
}

#[test]
fn mbc2_keeps_four_bit_cells_echoed() {
    let mut mmu = mmu_with(0x05, 0x02);
    // Bit 8 clear: the RAM-enable gate.
    mmu.write_byte(0x0000, 0x0A);
    mmu.write_byte(0xA000, 0xFF);
    // Only the low four bits of a cell are kept.
    assert_eq!(mmu.read_byte(0xA000), 0x0F);
    // The 512 cells echo across the window.
    assert_eq!(mmu.read_byte(0xA200), 0x0F);
    // Bit 8 set: the ROM bank select, zero bumped to one.
    mmu.write_byte(0x0100, 0x00);
    match &mmu.mbc {
        Some(Mbc::Two(m)) => assert_eq!(m.rom_bank, 1),
        _ => panic!("expected an MBC2 controller"),
    }
    mmu.write_byte(0x0100, 0x03);
    match &mmu.mbc {
        Some(Mbc::Two(m)) => assert_eq!(m.rom_bank, 3),
        _ => panic!("expected an MBC2 controller"),
    }
}

#[test]
fn mbc2_disabled_ram_drops_writes() {
    let mut mmu = mmu_with(0x05, 0x02);
    mmu.write_byte(0xA000, 0x0F);
    assert_eq!(mmu.read_byte(0xA000), 0x00);
}

#[test]
fn mbc3_rtc_registers_retain_written_values() {
    let mut mmu = mmu_with(0x0F, 0x02);
    mmu.write_byte(0x0000, 0x0A);
    // Select the seconds register through the RAM/RTC selector.
    mmu.write_byte(0x4000, 0x08);
    mmu.write_byte(0xA000, 0x3B);
    assert_eq!(mmu.read_byte(0xA000), 0x3B);
    // The hours register is its own cell.
    mmu.write_byte(0x4000, 0x0A);
    mmu.write_byte(0xA000, 0x17);
    assert_eq!(mmu.read_byte(0xA000), 0x17);
    mmu.write_byte(0x4000, 0x08);
    assert_eq!(mmu.read_byte(0xA000), 0x3B);
}

#[test]
fn mbc3_ram_banks_are_distinct() {
    let mut mmu = mmu_with(0x11, 0x02);
    mmu.write_byte(0x0000, 0x0A);
    mmu.write_byte(0x4000, 0x00);
    mmu.write_byte(0xA010, 0x11);
    mmu.write_byte(0x4000, 0x03);
    mmu.write_byte(0xA010, 0x33);
    mmu.write_byte(0x4000, 0x00);
    assert_eq!(mmu.read_byte(0xA010), 0x11);
    mmu.write_byte(0x4000, 0x03);
    assert_eq!(mmu.read_byte(0xA010), 0x33);
}

#[test]
fn mbc3_bank_zero_bumps_to_one() {
    let mut mmu = mmu_with(0x0F, 0x06);
    mmu.write_byte(0x2000, 0x00);
    match &mmu.mbc {
        Some(Mbc::Three(m)) => assert_eq!(m.rom_bank, 1),
        _ => panic!("expected an MBC3 controller"),
    }
    mmu.write_byte(0x2000, 0x7F);
    match &mmu.mbc {
        Some(Mbc::Three(m)) => assert_eq!(m.rom_bank, 0x7F),
        _ => panic!("expected an MBC3 controller"),
    }
}

#[test]
fn external_ram_snapshot_and_load_round_trip() {
    let mut mmu = mmu_with(0x01, 0x06);
    mmu.write_byte(0x0000, 0x0A);
    mmu.write_byte(0xA000, 0x99);
    let saved = mmu.get_external_ram();
    assert_eq!(saved.len(), 0x8000);
    assert_eq!(saved[0], 0x99);

    let mut mmu2 = mmu_with(0x01, 0x06);
    mmu2.load_external_ram(saved);
    mmu2.write_byte(0x0000, 0x0A);
    assert_eq!(mmu2.read_byte(0xA000), 0x99);
}
