use rusty_boy::rusty_boy::RustyBoy;

fn boot_with(program: &[u8]) -> RustyBoy {
    let mut rom_data = vec![0u8; 0x8000];
    for (i, b) in program.iter().enumerate() {
        rom_data[0x100 + i] = *b;
    }
    RustyBoy::new(rom_data)
}

#[test]
fn ld_r_r_moves_bytes_between_registers() {
    // LD B,0x7E; LD C,B; LD A,C.
    let mut rb = boot_with(&[0x06, 0x7E, 0x48, 0x79]);
    rb.cpu.execute();
    rb.cpu.execute();
    rb.cpu.execute();
    assert_eq!(rb.cpu.bc, 0x7E7E);
    assert_eq!(rb.cpu.af >> 8, 0x7E);
}

#[test]
fn ld_through_hl_reads_and_writes_memory() {
    // LD HL,0xC123; LD (HL),0x5D; LD D,(HL).
    let mut rb = boot_with(&[0x21, 0x23, 0xC1, 0x36, 0x5D, 0x56]);
    rb.cpu.execute();
    assert_eq!(rb.cpu.execute(), 12);
    assert_eq!(rb.cpu.read_memory(0xC123), 0x5D);
    assert_eq!(rb.cpu.execute(), 8);
    assert_eq!(rb.cpu.de >> 8, 0x5D);
}

#[test]
fn ld_hl_post_increment_and_decrement() {
    // LD HL,0xC000; LD A,0x11; LD (HL+),A; LD (HL-),A.
    let mut rb = boot_with(&[0x21, 0x00, 0xC0, 0x3E, 0x11, 0x22, 0x32]);
    rb.cpu.execute();
    rb.cpu.execute();
    rb.cpu.execute();
    assert_eq!(rb.cpu.hl, 0xC001);
    rb.cpu.execute();
    assert_eq!(rb.cpu.hl, 0xC000);
    assert_eq!(rb.cpu.read_memory(0xC000), 0x11);
    assert_eq!(rb.cpu.read_memory(0xC001), 0x11);
}

#[test]
fn ldh_moves_through_the_high_page() {
    // LDH (0x80),A then LDH A,(0x80) after clearing A.
    let mut rb = boot_with(&[0x3E, 0x66, 0xE0, 0x80, 0x3E, 0x00, 0xF0, 0x80]);
    rb.cpu.execute();
    assert_eq!(rb.cpu.execute(), 12);
    assert_eq!(rb.cpu.read_memory(0xFF80), 0x66);
    rb.cpu.execute();
    assert_eq!(rb.cpu.execute(), 12);
    assert_eq!(rb.cpu.af >> 8, 0x66);
}

#[test]
fn ld_a16_sp_stores_the_stack_pointer() {
    // LD (0xC200),SP with the boot SP 0xFFFE.
    let mut rb = boot_with(&[0x08, 0x00, 0xC2]);
    assert_eq!(rb.cpu.execute(), 20);
    assert_eq!(rb.cpu.read_memory(0xC200), 0xFE);
    assert_eq!(rb.cpu.read_memory(0xC201), 0xFF);
}

#[test]
fn jp_hl_jumps_to_the_pair() {
    let mut rb = boot_with(&[0x21, 0x00, 0x30, 0xE9]);
    rb.cpu.execute();
    assert_eq!(rb.cpu.execute(), 4);
    assert_eq!(rb.cpu.program_counter, 0x3000);
}

#[test]
fn add_sp_signed_moves_both_ways() {
    // ADD SP,-2 then ADD SP,+2 restores the boot stack pointer.
    let mut rb = boot_with(&[0xE8, 0xFE, 0xE8, 0x02]);
    assert_eq!(rb.cpu.execute(), 16);
    assert_eq!(rb.cpu.stack_pointer, 0xFFFC);
    rb.cpu.execute();
    assert_eq!(rb.cpu.stack_pointer, 0xFFFE);
}

#[test]
fn ld_hl_sp_offset_computes_flags_on_low_byte() {
    // LD HL,SP+3 from SP=0xFFFE: HL wraps to 0x0001 with both carries.
    let mut rb = boot_with(&[0xF8, 0x03]);
    assert_eq!(rb.cpu.execute(), 12);
    assert_eq!(rb.cpu.hl, 0x0001);
    assert_eq!(rb.cpu.stack_pointer, 0xFFFE);
    let f = (rb.cpu.af & 0xFF) as u8;
    assert_eq!(f & 0x80, 0);
    assert_eq!(f & 0x40, 0);
    assert!(f & 0x20 > 0);
    assert!(f & 0x10 > 0);
}

#[test]
fn logic_ops_set_their_flag_patterns() {
    // LD A,0xF0; AND 0x0F -> 0 with Z and H; OR 0x3C -> 0x3C; XOR A -> 0.
    let mut rb = boot_with(&[0x3E, 0xF0, 0xE6, 0x0F, 0xF6, 0x3C, 0xAF]);
    rb.cpu.execute();
    rb.cpu.execute();
    assert_eq!(rb.cpu.af >> 8, 0x00);
    let f = (rb.cpu.af & 0xFF) as u8;
    assert!(f & 0x80 > 0 && f & 0x20 > 0);
    assert_eq!(f & 0x50, 0);
    rb.cpu.execute();
    assert_eq!(rb.cpu.af >> 8, 0x3C);
    rb.cpu.execute();
    assert_eq!(rb.cpu.af >> 8, 0x00);
    assert!((rb.cpu.af & 0x80) > 0);
}

#[test]
fn compare_leaves_a_and_reports_order() {
    // LD A,0x42; CP 0x42 sets Z; CP 0x50 sets C.
    let mut rb = boot_with(&[0x3E, 0x42, 0xFE, 0x42, 0xFE, 0x50]);
    rb.cpu.execute();
    rb.cpu.execute();
    assert_eq!(rb.cpu.af >> 8, 0x42);
    assert!((rb.cpu.af & 0x80) > 0);
    rb.cpu.execute();
    assert_eq!(rb.cpu.af >> 8, 0x42);
    let f = (rb.cpu.af & 0xFF) as u8;
    assert_eq!(f & 0x80, 0);
    assert!(f & 0x10 > 0);
}

#[test]
fn sixteen_bit_inc_dec_wrap() {
    // LD BC,0xFFFF; INC BC wraps to 0; DEC BC wraps back.
    let mut rb = boot_with(&[0x01, 0xFF, 0xFF, 0x03, 0x0B]);
    rb.cpu.execute();
    assert_eq!(rb.cpu.execute(), 8);
    assert_eq!(rb.cpu.bc, 0x0000);
    rb.cpu.execute();
    assert_eq!(rb.cpu.bc, 0xFFFF);
}

#[test]
fn adc_and_sbc_fold_the_carry_in() {
    // SCF; LD A,0xFE; ADC 0x01 -> 0x00 with carry out.
    let mut rb = boot_with(&[0x37, 0x3E, 0xFE, 0xCE, 0x01, 0x37, 0xDE, 0x00]);
    rb.cpu.execute();
    rb.cpu.execute();
    rb.cpu.execute();
    assert_eq!(rb.cpu.af >> 8, 0x00);
    assert!((rb.cpu.af & 0x10) > 0);
    // SCF; SBC 0x00 subtracts the borrow alone.
    rb.cpu.execute();
    rb.cpu.execute();
    assert_eq!(rb.cpu.af >> 8, 0xFF);
}

#[test]
fn rotates_on_a_never_set_z() {
    // LD A,0x80; RLCA -> 0x01 with carry, Z clear.
    let mut rb = boot_with(&[0x3E, 0x80, 0x07, 0x0F, 0x17, 0x1F]);
    rb.cpu.execute();
    rb.cpu.execute();
    assert_eq!(rb.cpu.af >> 8, 0x01);
    let f = (rb.cpu.af & 0xFF) as u8;
    assert_eq!(f & 0x80, 0);
    assert!(f & 0x10 > 0);
    // RRCA takes it back.
    rb.cpu.execute();
    assert_eq!(rb.cpu.af >> 8, 0x80);
    // RLA shifts the carry (1) into bit 0.
    rb.cpu.execute();
    assert_eq!(rb.cpu.af >> 8, 0x01);
    // RRA shifts the carry (1) into bit 7.
    rb.cpu.execute();
    assert_eq!(rb.cpu.af >> 8, 0x80);
}

#[test]
fn cb_memory_forms_work_through_hl() {
    // LD HL,0xC050; LD (HL),0x01; SLA (HL); BIT 1,(HL).
    let mut rb = boot_with(&[0x21, 0x50, 0xC0, 0x36, 0x01, 0xCB, 0x26, 0xCB, 0x4E]);
    rb.cpu.execute();
    rb.cpu.execute();
    assert_eq!(rb.cpu.execute(), 16);
    assert_eq!(rb.cpu.read_memory(0xC050), 0x02);
    assert_eq!(rb.cpu.execute(), 12);
    // Bit 1 is set, so Z is clear.
    assert_eq!(rb.cpu.af & 0x80, 0);
}

#[test]
fn conditional_call_not_taken_steps_past_operand() {
    // Boot C is set: CALL NC skipped.
    let mut rb = boot_with(&[0xD4, 0x34, 0x12]);
    assert_eq!(rb.cpu.execute(), 12);
    assert_eq!(rb.cpu.program_counter, 0x0103);
    assert_eq!(rb.cpu.stack_pointer, 0xFFFE);
}

#[test]
fn conditional_ret_costs_differ() {
    // CALL 0x1234; at 0x1234 RET NC (not taken, carry set at boot)
    // then RET C (taken).
    let mut rom_data = vec![0u8; 0x8000];
    rom_data[0x100] = 0xCD;
    rom_data[0x101] = 0x34;
    rom_data[0x102] = 0x12;
    rom_data[0x1234] = 0xD0;
    rom_data[0x1235] = 0xD8;
    let mut rb = RustyBoy::new(rom_data);
    rb.cpu.execute();
    assert_eq!(rb.cpu.execute(), 8);
    assert_eq!(rb.cpu.program_counter, 0x1235);
    assert_eq!(rb.cpu.execute(), 20);
    assert_eq!(rb.cpu.program_counter, 0x0103);
}

#[test]
fn reti_restores_ime() {
    // DI; CALL 0x1234; at 0x1234 RETI.
    let mut rom_data = vec![0u8; 0x8000];
    rom_data[0x100] = 0xF3;
    rom_data[0x101] = 0xCD;
    rom_data[0x102] = 0x34;
    rom_data[0x103] = 0x12;
    rom_data[0x1234] = 0xD9;
    let mut rb = RustyBoy::new(rom_data);
    rb.cpu.execute();
    assert!(!rb.cpu.interrupts_enabled);
    rb.cpu.execute();
    rb.cpu.execute();
    assert!(rb.cpu.interrupts_enabled);
    assert_eq!(rb.cpu.program_counter, 0x0104);
}

#[test]
fn cpl_scf_ccf_flag_dance() {
    // LD A,0x0F; CPL -> 0xF0 with N and H; SCF clears them and sets C;
    // CCF flips C.
    let mut rb = boot_with(&[0x3E, 0x0F, 0x2F, 0x37, 0x3F]);
    rb.cpu.execute();
    rb.cpu.execute();
    assert_eq!(rb.cpu.af >> 8, 0xF0);
    let f = (rb.cpu.af & 0xFF) as u8;
    assert!(f & 0x40 > 0 && f & 0x20 > 0);
    rb.cpu.execute();
    let f = (rb.cpu.af & 0xFF) as u8;
    assert_eq!(f & 0x60, 0);
    assert!(f & 0x10 > 0);
    rb.cpu.execute();
    assert_eq!(rb.cpu.af & 0x10, 0);
}

#[test]
fn f_low_nibble_stays_zero_through_every_mutation() {
    let mut rb = boot_with(&[0x3E, 0xFF, 0x3C, 0x87, 0x37, 0x3F, 0x27, 0xCB, 0x37]);
    for _ in 0..7 {
        rb.cpu.execute();
        assert_eq!(rb.cpu.af & 0x000F, 0);
    }
}
