use rusty_boy::interrupts::{get_servicable_interrupt, request_interrupt};
use rusty_boy::joypad::Joypad;
use rusty_boy::mmu::Mmu;
use rusty_boy::rom::Rom;
use rusty_boy::utils::{get_bit_val, get_rgb888, is_bit_set, reset_bit, set_bit, Interrupt, JoypadMode};

fn fresh_mmu() -> Mmu {
    let rom_data = vec![0u8; 0x8000];
    let mut mmu = Mmu::new(Rom::new(rom_data), Joypad::new());
    mmu.reset();
    mmu
}

#[test]
fn press_then_release_restores_the_row_nibble() {
    let mut joypad = Joypad::new();
    let before = joypad.get_buttons_for_mode(JoypadMode::DIRECTION);
    assert_eq!(before, 0xF);
    joypad.set_button_state(2);
    assert_eq!(joypad.get_buttons_for_mode(JoypadMode::DIRECTION), 0xB);
    joypad.reset_button_state(2);
    assert_eq!(joypad.get_buttons_for_mode(JoypadMode::DIRECTION), before);
}

#[test]
fn rows_report_their_own_buttons() {
    let mut joypad = Joypad::new();
    // Start (button 4) sits in bit 3 of the action row only.
    joypad.set_button_state(4);
    assert_eq!(joypad.get_buttons_for_mode(JoypadMode::ACTION), 0x7);
    assert_eq!(joypad.get_buttons_for_mode(JoypadMode::DIRECTION), 0xF);
    assert_eq!(joypad.get_button_state(4), 0);
    assert_eq!(joypad.get_button_state(0), 1);
}

#[test]
fn servicable_interrupt_needs_both_masks() {
    let mut mmu = fresh_mmu();
    assert!(get_servicable_interrupt(&mmu).is_none());
    mmu.write_byte(0xFF0F, 0x04);
    assert!(get_servicable_interrupt(&mmu).is_none());
    mmu.write_byte(0xFFFF, 0x04);
    assert_eq!(get_servicable_interrupt(&mmu), Some(Interrupt::TIMER));
}

#[test]
fn lowest_pending_bit_wins() {
    let mut mmu = fresh_mmu();
    mmu.write_byte(0xFFFF, 0x1F);
    mmu.write_byte(0xFF0F, 0x18);
    assert_eq!(get_servicable_interrupt(&mmu), Some(Interrupt::SERIAL));
    mmu.write_byte(0xFF0F, 0x19);
    assert_eq!(get_servicable_interrupt(&mmu), Some(Interrupt::V_BLANK));
}

#[test]
fn request_interrupt_sets_the_flag_bit() {
    let mut mmu = fresh_mmu();
    request_interrupt(&mut mmu, Interrupt::JOYPAD);
    assert_eq!(mmu.read_byte(0xFF0F) & 0x10, 0x10);
    request_interrupt(&mut mmu, Interrupt::V_BLANK);
    assert_eq!(mmu.read_byte(0xFF0F) & 0x11, 0x11);
}

#[test]
fn bit_helpers_behave() {
    let mut b: u8 = 0;
    set_bit(&mut b, 3);
    assert_eq!(b, 8);
    assert!(is_bit_set(&b, 3));
    assert!(!is_bit_set(&b, 2));
    assert_eq!(get_bit_val(&b, 3), 1);
    assert_eq!(get_bit_val(&b, 4), 0);
    reset_bit(&mut b, 3);
    assert_eq!(b, 0);
}

#[test]
fn rgb555_expands_to_rgb888() {
    assert_eq!(get_rgb888(0x1F), 0xFF);
    assert_eq!(get_rgb888(0x00), 0x00);
    assert_eq!(get_rgb888(0x10), 0x84);
}
