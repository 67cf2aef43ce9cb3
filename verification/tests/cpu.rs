//! Interpreter-level checks: reset state, flag arithmetic, stack and
//! register round trips, and instruction timing.

use dmg::gb::{init, State};

fn flat_gb() -> dmg::gb::GameBoy {
    let mut gb = init();
    gb.test_mode = true;
    gb.memory.mapping_type = dmg::memory::MappingType::Flat;
    gb
}

#[test]
fn reset_state() {
    let gb = init();
    assert_eq!(gb.r.a, 0);
    assert_eq!(gb.r.b, 0);
    assert_eq!(gb.r.c, 0);
    assert_eq!(gb.r.d, 0);
    assert_eq!(gb.r.e, 0);
    assert_eq!(gb.r.f, 0);
    assert_eq!(gb.r.h, 0);
    assert_eq!(gb.r.l, 0);
    assert_eq!(gb.r.pc, 0);
    assert_eq!(gb.r.sp, 0);
    assert_eq!(gb.r.ly, 0);
    assert!(!gb.ime);
    assert_eq!(gb.cycles_to_idle, Some(0));
    assert!(matches!(gb.state, State::Execute));
    let frame = gb.display();
    assert_eq!(frame.len(), 160 * 144);
    assert!(frame.iter().all(|&px| px == 0));
}

#[test]
fn inc_b_half_carry() {
    let mut gb = flat_gb();
    gb.r.b = 0x0F;
    gb.r.f = 0;
    let cycles = gb.fetch_decode_execute(0x04);
    assert_eq!(gb.r.b, 0x10);
    assert_eq!(gb.r.f, 0x20);
    assert_eq!(cycles, Some(1));
}

#[test]
fn dec_to_zero_sets_z_and_n() {
    let mut gb = flat_gb();
    gb.r.b = 0x01;
    gb.fetch_decode_execute(0x05);
    assert_eq!(gb.r.b, 0x00);
    assert_eq!(gb.r.f & 0x80, 0x80);
    assert_eq!(gb.r.f & 0x40, 0x40);
}

#[test]
fn add_with_carry_out() {
    let mut gb = flat_gb();
    gb.r.a = 0xF0;
    gb.r.b = 0x20;
    gb.fetch_decode_execute(0x80); // ADD A, B
    assert_eq!(gb.r.a, 0x10);
    assert_eq!(gb.r.f & 0x10, 0x10); // carry out of bit 7
    assert_eq!(gb.r.f & 0x80, 0); // not zero
}

#[test]
fn adc_uses_carry_in() {
    let mut gb = flat_gb();
    gb.r.a = 0xFF;
    gb.r.c = 0x00;
    gb.set_flag_c(true);
    gb.fetch_decode_execute(0x89); // ADC A, C
    assert_eq!(gb.r.a, 0x00);
    assert_eq!(gb.r.f & 0x80, 0x80); // zero
    assert_eq!(gb.r.f & 0x10, 0x10); // carry
}

#[test]
fn sub_borrow_flags() {
    let mut gb = flat_gb();
    gb.r.a = 0x10;
    gb.r.d = 0x20;
    gb.fetch_decode_execute(0x92); // SUB A, D
    assert_eq!(gb.r.a, 0xF0);
    assert_eq!(gb.r.f & 0x40, 0x40); // N
    assert_eq!(gb.r.f & 0x10, 0x10); // borrow
}

#[test]
fn cp_discards_result() {
    let mut gb = flat_gb();
    gb.r.a = 0x42;
    gb.r.e = 0x42;
    gb.fetch_decode_execute(0xBB); // CP A, E
    assert_eq!(gb.r.a, 0x42);
    assert_eq!(gb.r.f & 0x80, 0x80); // equal: Z set
}

#[test]
fn and_sets_half_carry_flag() {
    let mut gb = flat_gb();
    gb.r.a = 0b1100;
    gb.r.b = 0b1010;
    gb.fetch_decode_execute(0xA0); // AND A, B
    assert_eq!(gb.r.a, 0b1000);
    assert_eq!(gb.r.f, 0x20);
}

#[test]
fn daa_adjusts_bcd_addition() {
    let mut gb = flat_gb();
    gb.r.a = 0x15;
    gb.r.b = 0x27;
    gb.fetch_decode_execute(0x80); // ADD A, B: 0x3C
    gb.fetch_decode_execute(0x27); // DAA
    assert_eq!(gb.r.a, 0x42);
    assert_eq!(gb.r.f & 0x10, 0); // no carry
}

#[test]
fn rotate_a_left_circular() {
    let mut gb = flat_gb();
    gb.r.a = 0x81;
    gb.fetch_decode_execute(0x07); // RLCA
    assert_eq!(gb.r.a, 0x03);
    assert_eq!(gb.r.f & 0x10, 0x10);
    assert_eq!(gb.r.f & 0x80, 0); // Z always cleared
}

#[test]
fn cb_swap_nibbles() {
    let mut gb = flat_gb();
    gb.r.b = 0xA5;
    gb.r.pc = 0x200;
    gb.write(0x200, 0x30); // SWAP B
    let cycles = gb.fetch_decode_execute(0xCB);
    assert_eq!(gb.r.b, 0x5A);
    assert_eq!(cycles, Some(2));
}

#[test]
fn cb_bit_test_and_set() {
    let mut gb = flat_gb();
    gb.r.c = 0x00;
    gb.r.pc = 0x200;
    gb.write(0x200, 0x51); // BIT 2, C
    gb.fetch_decode_execute(0xCB);
    assert_eq!(gb.r.f & 0x80, 0x80); // bit clear: Z set
    gb.r.pc = 0x201;
    gb.write(0x201, 0xD1); // SET 2, C
    gb.fetch_decode_execute(0xCB);
    assert_eq!(gb.r.c, 0x04);
}

#[test]
fn ld_r16_then_read_back() {
    // every group-1 pair gives back the loaded word
    let loads: [(u8, u8); 4] = [(0x01, 0), (0x11, 1), (0x21, 2), (0x31, 3)];
    for (opcode, idx) in loads {
        let mut gb = flat_gb();
        gb.r.pc = 0x300;
        gb.write(0x300, 0xCD);
        gb.write(0x301, 0xAB);
        gb.fetch_decode_execute(opcode);
        assert_eq!(gb.get_r16_group_1(idx), 0xABCD);
        assert_eq!(gb.r.pc, 0x302);
    }
}

#[test]
fn push_pop_round_trip() {
    let mut gb = flat_gb();
    gb.r.sp = 0xC100;
    gb.set_bc(0x1234);
    gb.fetch_decode_execute(0xC5); // PUSH BC
    assert_eq!(gb.r.sp, 0xC0FE);
    gb.set_bc(0);
    gb.fetch_decode_execute(0xC1); // POP BC
    assert_eq!(gb.get_bc(), 0x1234);
    assert_eq!(gb.r.sp, 0xC100);
}

#[test]
fn push_pop_af_masks_low_nibble() {
    let mut gb = flat_gb();
    gb.r.sp = 0xC100;
    gb.set_af(0x12FF);
    gb.fetch_decode_execute(0xF5); // PUSH AF
    gb.set_af(0);
    gb.fetch_decode_execute(0xF1); // POP AF
    assert_eq!(gb.get_af(), 0x12F0);
    assert_eq!(gb.r.f & 0x0F, 0);
}

#[test]
fn call_then_ret_restores_pc() {
    let mut gb = flat_gb();
    gb.r.pc = 0x100;
    gb.r.sp = 0xFFFE;
    gb.write(0x100, 0xCD); // CALL 0x1234
    gb.write(0x101, 0x34);
    gb.write(0x102, 0x12);
    gb.write(0x1234, 0xC9); // RET
    let mut steps = 0;
    while gb.r.pc != 0x103 && steps < 40 {
        gb.tick();
        if gb.r.pc == 0x1234 {
            // mid-sequence: the return address 0x0103 sits on the stack
            assert_eq!(gb.r.sp, 0xFFFC);
            assert_eq!(gb.read(0xFFFC), 0x03);
            assert_eq!(gb.read(0xFFFD), 0x01);
        }
        steps += 1;
    }
    assert_eq!(gb.r.pc, 0x103);
    assert_eq!(gb.r.sp, 0xFFFE);
}

#[test]
fn reti_after_call_restores_pc_and_enables_ime() {
    let mut gb = flat_gb();
    gb.r.pc = 0x100;
    gb.r.sp = 0xFFFE;
    gb.ime = false;
    gb.write(0x100, 0xCD); // CALL 0x1234
    gb.write(0x101, 0x34);
    gb.write(0x102, 0x12);
    gb.write(0x1234, 0xD9); // RETI
    let mut steps = 0;
    while gb.r.pc != 0x103 && steps < 40 {
        gb.tick();
        steps += 1;
    }
    assert_eq!(gb.r.pc, 0x103);
    assert_eq!(gb.r.sp, 0xFFFE);
    assert!(gb.ime);
}

#[test]
fn jr_backwards_wraps_modularly() {
    let mut gb = flat_gb();
    gb.r.pc = 0x200;
    gb.write(0x200, 0xFE); // e = -2: jump to the JR opcode itself
    gb.fetch_decode_execute(0x18);
    assert_eq!(gb.r.pc, 0x1FF);
}

#[test]
fn conditional_jump_timing() {
    let mut gb = flat_gb();
    gb.r.pc = 0x200;
    gb.write(0x200, 0x00);
    gb.write(0x201, 0x90);
    gb.set_flag_z(false);
    let taken = gb.fetch_decode_execute(0xC2); // JP NZ, 0x9000
    assert_eq!(taken, Some(4));
    assert_eq!(gb.r.pc, 0x9000);

    let mut gb2 = flat_gb();
    gb2.r.pc = 0x200;
    gb2.set_flag_z(true);
    let skipped = gb2.fetch_decode_execute(0xC2);
    assert_eq!(skipped, Some(3));
    assert_eq!(gb2.r.pc, 0x202);
}

#[test]
fn halt_returns_no_further_work() {
    let mut gb = flat_gb();
    let r = gb.fetch_decode_execute(0x76);
    assert_eq!(r, None);
    assert!(matches!(gb.state, State::Halted));
}

#[test]
fn illegal_opcode_does_nothing() {
    let mut gb = flat_gb();
    gb.r.pc = 0x500;
    let r = gb.fetch_decode_execute(0xD3);
    assert_eq!(r, None);
    assert_eq!(gb.r.pc, 0x500);
}

#[test]
fn flags_low_nibble_stays_clear() {
    // the F invariant holds along an arbitrary instruction mix
    let mut gb = flat_gb();
    gb.r.sp = 0xD000;
    let program: [u8; 12] = [0x3C, 0x04, 0x80, 0x27, 0x37, 0x3F, 0xF5, 0xF1, 0x07, 0x17, 0x2F, 0xC3];
    for (i, b) in program.iter().enumerate() {
        gb.write(0x100 + i as u16, *b);
    }
    gb.write(0x10C, 0x00);
    gb.write(0x10D, 0x01);
    gb.r.pc = 0x100;
    for _ in 0..200 {
        gb.tick();
        assert_eq!(gb.r.f & 0x0F, 0);
    }
}
