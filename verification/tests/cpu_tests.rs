use rusty_boy::rusty_boy::RustyBoy;

/// A machine whose cartridge holds `program` at the entry point 0x100.
fn boot_with(program: &[u8]) -> RustyBoy {
    let mut rom_data = vec![0u8; 0x8000];
    for (i, b) in program.iter().enumerate() {
        rom_data[0x100 + i] = *b;
    }
    RustyBoy::new(rom_data)
}

fn flags(rb: &RustyBoy) -> (bool, bool, bool, bool) {
    let f = (rb.cpu.af & 0xFF) as u8;
    (f & 0x80 > 0, f & 0x40 > 0, f & 0x20 > 0, f & 0x10 > 0)
}

#[test]
fn boot_state_matches_documented_values() {
    let rb = boot_with(&[]);
    assert_eq!(rb.cpu.program_counter, 0x0100);
    assert_eq!(rb.cpu.stack_pointer, 0xFFFE);
    assert_eq!(rb.cpu.af, 0x01B0);
    assert_eq!(rb.cpu.bc, 0x0013);
    assert_eq!(rb.cpu.de, 0x00D8);
    assert_eq!(rb.cpu.hl, 0x014D);
    assert!(rb.cpu.interrupts_enabled);
    assert!(!rb.cpu.halted);
}

#[test]
fn nop_costs_four_cycles_all_reported() {
    let mut rb = boot_with(&[0x00]);
    let cycles = rb.cpu.execute();
    assert_eq!(cycles, 4);
    assert_eq!(cycles % 4, 0);
    assert_eq!(rb.cpu.cycle_tracker, 4);
    assert_eq!(rb.cpu.program_counter, 0x0101);
}

#[test]
fn every_instruction_reports_multiple_of_four_cycles() {
    // LD A,d8; ADD A,A; CALL; RET; PUSH BC; POP BC; INC (HL) by way of
    // a spread of cycle shapes.
    let mut rb = boot_with(&[0x3E, 0x01, 0x87, 0xC5, 0xC1, 0x21, 0x00, 0xC0, 0x34]);
    for _ in 0..6 {
        let cycles = rb.cpu.execute();
        assert_eq!(cycles % 4, 0);
        assert!(cycles >= 4);
        assert_eq!(rb.cpu.cycle_tracker, cycles);
    }
}

#[test]
fn inc_wraps_to_zero_with_z_and_h() {
    let mut rb = boot_with(&[0x3E, 0xFF, 0x3C]);
    rb.cpu.execute();
    rb.cpu.execute();
    assert_eq!(rb.cpu.af >> 8, 0x00);
    let (z, n, h, c) = flags(&rb);
    assert!(z);
    assert!(!n);
    assert!(h);
    // C came from the boot flags and INC leaves it alone.
    assert!(c);
}

#[test]
fn dec_wraps_to_ff_with_n_and_h() {
    let mut rb = boot_with(&[0x3E, 0x00, 0x3D]);
    rb.cpu.execute();
    rb.cpu.execute();
    assert_eq!(rb.cpu.af >> 8, 0xFF);
    let (z, n, h, _) = flags(&rb);
    assert!(!z);
    assert!(n);
    assert!(h);
}

#[test]
fn add_a_a_with_0x80_carries_out() {
    let mut rb = boot_with(&[0x3E, 0x80, 0x87]);
    rb.cpu.execute();
    rb.cpu.execute();
    assert_eq!(rb.cpu.af >> 8, 0x00);
    let (z, n, h, c) = flags(&rb);
    assert!(z);
    assert!(!n);
    assert!(!h);
    assert!(c);
}

#[test]
fn add_hl_hl_with_0x8000_carries_out_keeping_z() {
    let mut rb = boot_with(&[0x21, 0x00, 0x80, 0x29]);
    let z_before = flags(&rb).0;
    rb.cpu.execute();
    rb.cpu.execute();
    assert_eq!(rb.cpu.hl, 0x0000);
    let (z, n, h, c) = flags(&rb);
    assert_eq!(z, z_before);
    assert!(!n);
    assert!(!h);
    assert!(c);
}

#[test]
fn sub_sets_borrow_flags() {
    // LD A,0x10; SUB 0x20 -> 0xF0 with N and C set.
    let mut rb = boot_with(&[0x3E, 0x10, 0xD6, 0x20]);
    rb.cpu.execute();
    rb.cpu.execute();
    assert_eq!(rb.cpu.af >> 8, 0xF0);
    let (z, n, _, c) = flags(&rb);
    assert!(!z);
    assert!(n);
    assert!(c);
}

#[test]
fn ei_then_di_leaves_interrupts_disabled() {
    let mut rb = boot_with(&[0xFB, 0xF3]);
    rb.cpu.execute();
    rb.cpu.execute();
    assert!(!rb.cpu.interrupts_enabled);
}

#[test]
fn ei_takes_effect_only_after_next_instruction() {
    let mut rb = boot_with(&[0xF3, 0xFB, 0x00]);
    rb.cpu.execute();
    assert!(!rb.cpu.interrupts_enabled);
    rb.cpu.execute();
    // EI has completed but its effect is delayed by one instruction.
    assert!(!rb.cpu.interrupts_enabled);
    rb.cpu.execute();
    assert!(rb.cpu.interrupts_enabled);
}

#[test]
fn halt_steps_cost_four_cycles_and_hold_pc() {
    let mut rb = boot_with(&[0x76]);
    rb.cpu.execute();
    assert!(rb.cpu.halted);
    let pc = rb.cpu.program_counter;
    for _ in 0..2 {
        let cycles = rb.cpu.execute();
        rb.cpu.handle_interrupts();
        assert_eq!(cycles, 4);
        assert_eq!(rb.cpu.program_counter, pc);
        assert!(rb.cpu.halted);
    }
}

#[test]
fn call_and_ret_round_trip() {
    let mut rom_data = vec![0u8; 0x8000];
    rom_data[0x100] = 0xCD;
    rom_data[0x101] = 0x34;
    rom_data[0x102] = 0x12;
    rom_data[0x1234] = 0xC9;
    let mut rb = RustyBoy::new(rom_data);

    let cycles = rb.cpu.execute();
    assert_eq!(cycles, 24);
    assert_eq!(rb.cpu.program_counter, 0x1234);
    assert_eq!(rb.cpu.stack_pointer, 0xFFFC);
    assert_eq!(rb.cpu.read_memory(0xFFFC), 0x03);
    assert_eq!(rb.cpu.read_memory(0xFFFD), 0x01);

    let cycles = rb.cpu.execute();
    assert_eq!(cycles, 16);
    assert_eq!(rb.cpu.program_counter, 0x0103);
    assert_eq!(rb.cpu.stack_pointer, 0xFFFE);
}

#[test]
fn pop_af_push_af_pop_bc_clears_low_nibble_of_c() {
    // Stack in WRAM holding F=0xFF, A=0x12; POP AF masks the flags to
    // the high nibble, and the masked byte is what PUSH AF/POP BC move
    // into C.
    let mut rb = boot_with(&[0x31, 0x00, 0xD0, 0xF1, 0xF5, 0xC1]);
    rb.cpu.mmu.write_byte(0xD000, 0xFF);
    rb.cpu.mmu.write_byte(0xD001, 0x12);
    rb.cpu.execute();
    rb.cpu.execute();
    assert_eq!(rb.cpu.af, 0x12F0);
    rb.cpu.execute();
    rb.cpu.execute();
    assert_eq!(rb.cpu.bc & 0x00FF, 0x00F0);
    assert_eq!(rb.cpu.bc & 0x000F, 0);
}

#[test]
fn conditional_jump_costs_depend_on_branch() {
    // Boot Z is set: JR NZ not taken (8), JR Z taken (12).
    let mut rb = boot_with(&[0x20, 0x05, 0x28, 0x05]);
    assert_eq!(rb.cpu.execute(), 8);
    assert_eq!(rb.cpu.program_counter, 0x0102);
    assert_eq!(rb.cpu.execute(), 12);
    assert_eq!(rb.cpu.program_counter, 0x0109);
}

#[test]
fn jr_takes_negative_offsets() {
    let mut rb = boot_with(&[0x18, 0xFE]);
    assert_eq!(rb.cpu.execute(), 12);
    // -2 from the post-operand PC lands back on the JR itself.
    assert_eq!(rb.cpu.program_counter, 0x0100);
}

#[test]
fn rst_pushes_pc_and_jumps_to_vector() {
    let mut rb = boot_with(&[0xEF]);
    assert_eq!(rb.cpu.execute(), 16);
    assert_eq!(rb.cpu.program_counter, 0x0028);
    assert_eq!(rb.cpu.stack_pointer, 0xFFFC);
    assert_eq!(rb.cpu.read_memory(0xFFFC), 0x01);
}

#[test]
fn cb_rlc_rotates_and_reports_carry() {
    let mut rb = boot_with(&[0x06, 0x80, 0xCB, 0x00]);
    rb.cpu.execute();
    let cycles = rb.cpu.execute();
    assert_eq!(cycles, 8);
    assert_eq!(rb.cpu.bc >> 8, 0x01);
    let (z, n, h, c) = flags(&rb);
    assert!(!z && !n && !h);
    assert!(c);
}

#[test]
fn cb_swap_trades_nibbles() {
    let mut rb = boot_with(&[0x3E, 0xAB, 0xCB, 0x37]);
    rb.cpu.execute();
    rb.cpu.execute();
    assert_eq!(rb.cpu.af >> 8, 0xBA);
}

#[test]
fn cb_bit_tests_into_z() {
    // BIT 7,A with A=0x80: the bit is set, so Z clears.
    let mut rb = boot_with(&[0x3E, 0x80, 0xCB, 0x7F, 0xCB, 0x47]);
    rb.cpu.execute();
    rb.cpu.execute();
    let (z, n, h, _) = flags(&rb);
    assert!(!z && !n && h);
    // BIT 0,A: clear, so Z sets.
    rb.cpu.execute();
    assert!(flags(&rb).0);
}

#[test]
fn cb_set_and_res_move_single_bits() {
    let mut rb = boot_with(&[0x3E, 0x00, 0xCB, 0xC7, 0xCB, 0x87]);
    rb.cpu.execute();
    rb.cpu.execute();
    assert_eq!(rb.cpu.af >> 8, 0x01);
    rb.cpu.execute();
    assert_eq!(rb.cpu.af >> 8, 0x00);
}

#[test]
fn daa_adjusts_bcd_addition() {
    // 0x15 + 0x27 = 0x3C; DAA turns it into 0x42 with no carry.
    let mut rb = boot_with(&[0x3E, 0x15, 0xC6, 0x27, 0x27]);
    rb.cpu.execute();
    rb.cpu.execute();
    rb.cpu.execute();
    assert_eq!(rb.cpu.af >> 8, 0x42);
    assert!(!flags(&rb).3);
}

#[test]
fn pending_enabled_interrupt_is_serviced() {
    let mut rb = boot_with(&[0x00]);
    rb.cpu.mmu.write_byte(0xFFFF, 0x01);
    rb.cpu.mmu.write_byte(0xFF0F, 0x01);
    rb.cpu.handle_interrupts();
    assert_eq!(rb.cpu.program_counter, 0x0040);
    assert_eq!(rb.cpu.stack_pointer, 0xFFFC);
    assert!(!rb.cpu.interrupts_enabled);
    // The service sequence itself costs 20 T-cycles.
    assert_eq!(rb.cpu.cycle_tracker, 20);
    assert_eq!(rb.cpu.read_memory(0xFF0F) & 0x01, 0);
    // The interrupted PC sits on the stack.
    assert_eq!(rb.cpu.read_memory(0xFFFC), 0x00);
    assert_eq!(rb.cpu.read_memory(0xFFFD), 0x01);
}

#[test]
fn interrupt_priority_prefers_lowest_bit() {
    let mut rb = boot_with(&[0x00]);
    rb.cpu.mmu.write_byte(0xFFFF, 0x1F);
    rb.cpu.mmu.write_byte(0xFF0F, 0x06);
    rb.cpu.handle_interrupts();
    // LCD STAT (bit 1) wins over Timer (bit 2).
    assert_eq!(rb.cpu.program_counter, 0x0048);
}

#[test]
fn interrupt_without_ime_only_wakes_the_cpu() {
    let mut rb = boot_with(&[0xF3, 0x00, 0x76]);
    rb.cpu.execute();
    rb.cpu.execute();
    rb.cpu.execute();
    assert!(rb.cpu.halted);
    let pc = rb.cpu.program_counter;
    rb.cpu.mmu.write_byte(0xFFFF, 0x01);
    rb.cpu.mmu.write_byte(0xFF0F, 0x01);
    rb.cpu.handle_interrupts();
    assert!(!rb.cpu.halted);
    assert_eq!(rb.cpu.program_counter, pc);
    // The request stays pending for when IME returns.
    assert_eq!(rb.cpu.read_memory(0xFF0F) & 0x01, 1);
}

#[test]
fn run_pumps_one_frame_and_buttons_route_through() {
    // An idle loop: JR -2.
    let mut rb = boot_with(&[0x18, 0xFE]);
    let frame_cycles = rb.run();
    assert!(!rb.decode_error);
    assert!(frame_cycles >= 70224);
    rb.set_button_state(rusty_boy::utils::A_BUTTON);
    rb.reset_button_state(rusty_boy::utils::A_BUTTON);
    assert_eq!(rb.get_screen().len(), 160 * 144 * 3);
    assert_eq!(rb.get_vram_tiles().len(), 128 * 192 * 3);
}

#[test]
fn run_stops_on_undecodable_opcode() {
    let mut rb = boot_with(&[0xD3]);
    rb.run();
    assert!(rb.decode_error);
}

#[test]
fn toggle_pause_skips_the_pump() {
    let mut rb = boot_with(&[0x18, 0xFE]);
    rb.toggle_pause();
    assert!(rb.pause);
    let pc = rb.cpu.program_counter;
    assert_eq!(rb.run(), 0);
    assert_eq!(rb.cpu.program_counter, pc);
    rb.toggle_pause();
    assert!(!rb.pause);
}
