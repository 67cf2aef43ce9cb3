//! The SM83 instruction interpreter.
//!
//! [`GameBoy::fetch_decode_execute`] receives an opcode whose fetch has
//! already advanced PC, reads any immediate operands (advancing PC
//! further), performs the operation, and returns the instruction's
//! published machine-cycle cost — which the caller turns into an idle
//! counter — or `None` for HALT and for illegal opcodes.
//!
//! Decoding follows the octal structure of the instruction set: the top
//! two bits pick the block, the middle three a destination or
//! operation, the low three a source operand.

use vstd::prelude::*;

use crate::gb::{with_regs, GameBoy, Registers, State};
use crate::memory::{read_spec, write_post};
use crate::util::{
    cc_holds, f_nh, f_nhc, f_znh, f_znhc, get_r8_spec, get_r16_group_1_spec,
    get_r16_group_2_spec, get_r16_group_3_spec, regs_with_hl, set_r8_post,
    set_r16_group_1_regs, set_r16_group_3_regs, spec_af, spec_flag_c, spec_flag_h, spec_flag_n,
    spec_flag_z, spec_hl, spec_lsb, spec_msb, spec_u16, wadd8, wadd16, wsub8, wsub16,
};

verus! {

broadcast use
    crate::util::lemma_f_with_z_nibble,
    crate::util::lemma_f_with_n_nibble,
    crate::util::lemma_f_with_h_nibble,
    crate::util::lemma_f_with_c_nibble,
    crate::util::lemma_u16_bytes,
    crate::util::lemma_mask_high_nibble;

/// The two immediate bytes after the opcode, as a little-endian word.
pub open spec fn imm16(a: GameBoy) -> u16 {
    spec_u16(read_spec(a, wadd16(a.r.pc, 1)), read_spec(a, a.r.pc))
}

/// The register file after an 8-bit accumulator operation.  `kind` is
/// the middle octal digit of the opcode: ADD, ADC, SUB, SBC, AND,
/// XOR, OR, CP.
pub open spec fn alu_regs(r: Registers, kind: u8, x: u8) -> Registers {
    if kind == 0 {
        let res = wadd8(r.a, x);
        Registers {
            a: res,
            f: f_znhc(r.f, res == 0, false, (r.a & 0xF) + (x & 0xF) > 0xF, r.a + x > 0xFF),
            ..r
        }
    } else if kind == 1 {
        let c = spec_flag_c(r);
        let res = wadd8(wadd8(r.a, x), c);
        Registers {
            a: res,
            f: f_znhc(r.f, res == 0, false, (r.a & 0xF) + (x & 0xF) + c > 0xF, r.a + x + c > 0xFF),
            ..r
        }
    } else if kind == 2 {
        let res = wsub8(r.a, x);
        Registers {
            a: res,
            f: f_znhc(r.f, res == 0, true, (r.a & 0xF) < (x & 0xF), r.a < x),
            ..r
        }
    } else if kind == 3 {
        let c = spec_flag_c(r);
        let res = wsub8(wsub8(r.a, x), c);
        Registers {
            a: res,
            f: f_znhc(r.f, res == 0, true, (r.a & 0xF) < (x & 0xF) + c, r.a < x + c),
            ..r
        }
    } else if kind == 4 {
        let res = r.a & x;
        Registers { a: res, f: f_znhc(r.f, res == 0, false, true, false), ..r }
    } else if kind == 5 {
        let res = r.a ^ x;
        Registers { a: res, f: f_znhc(r.f, res == 0, false, false, false), ..r }
    } else if kind == 6 {
        let res = r.a | x;
        Registers { a: res, f: f_znhc(r.f, res == 0, false, false, false), ..r }
    } else {
        // CP: the flags of SUB, the accumulator untouched
        let res = wsub8(r.a, x);
        Registers { f: f_znhc(r.f, res == 0, true, (r.a & 0xF) < (x & 0xF), r.a < x), ..r }
    }
}

/// The register file after one of the four accumulator rotates
/// (RLCA, RRCA, RLA, RRA); all of them clear Z, N and H.
pub open spec fn rot_a_regs(r: Registers, kind: u8) -> Registers {
    if kind == 0 {
        let ms_bit = r.a & 0x80;
        Registers {
            a: (r.a << 1) | (ms_bit >> 7),
            f: f_znhc(r.f, false, false, false, ms_bit != 0),
            ..r
        }
    } else if kind == 1 {
        let ls_bit = r.a & 1;
        Registers {
            a: (r.a >> 1) | (ls_bit << 7),
            f: f_znhc(r.f, false, false, false, ls_bit != 0),
            ..r
        }
    } else if kind == 2 {
        let ms_bit = r.a & 0x80;
        Registers {
            a: (r.a << 1) | spec_flag_c(r),
            f: f_znhc(r.f, false, false, false, ms_bit != 0),
            ..r
        }
    } else {
        let ls_bit = r.a & 1;
        Registers {
            a: (r.a >> 1) | (spec_flag_c(r) << 7),
            f: f_znhc(r.f, false, false, false, ls_bit != 0),
            ..r
        }
    }
}

/// The register file after DAA: a BCD adjustment added to or
/// subtracted from A depending on N, with C set when the upper-nibble
/// adjustment applied and H always cleared.
pub open spec fn daa_regs(r: Registers) -> Registers {
    if spec_flag_n(r) != 0 {
        let adj = ((if spec_flag_h(r) != 0 { 6u8 } else { 0u8 })
            + (if spec_flag_c(r) != 0 { 0x60u8 } else { 0u8 })) as u8;
        let res = wsub8(r.a, adj);
        Registers { a: res, f: f_with_hz_cleared(r.f, res == 0), ..r }
    } else {
        let lo_adj: u8 = if spec_flag_h(r) != 0 || r.a & 0xF > 9 { 6u8 } else { 0u8 };
        let carry = spec_flag_c(r) != 0 || r.a > 0x99;
        let adj = (lo_adj + if carry { 0x60u8 } else { 0u8 }) as u8;
        let res = wadd8(r.a, adj);
        Registers {
            a: res,
            f: f_with_hz_cleared(if carry { crate::util::f_with_c(r.f, true) } else { r.f }, res == 0),
            ..r
        }
    }
}

/// F after DAA's common tail: Z set from the result, H cleared.
pub open spec fn f_with_hz_cleared(f: u8, z: bool) -> u8 {
    crate::util::f_with_h(crate::util::f_with_z(f, z), false)
}

/// Effect of INC on 8-bit operand `r8`: the operand (register or the
/// byte at (HL)) goes up by one modulo 256; Z, N and H are set from
/// it and C is untouched.
pub open spec fn inc_r8_post(a: GameBoy, b: GameBoy, r8: u8) -> bool {
    let v = get_r8_spec(a, r8);
    let res = wadd8(v, 1);
    exists|m: GameBoy|
        #[trigger] set_r8_post(a, m, r8, res)
        && b == with_regs(m, Registers { f: f_znh(m.r.f, res == 0, false, (v & 0xF) + 1 > 0xF), ..m.r })
}

/// Effect of DEC on 8-bit operand `r8`, with N set and H the borrow
/// out of the low nibble; C is untouched.
pub open spec fn dec_r8_post(a: GameBoy, b: GameBoy, r8: u8) -> bool {
    let v = get_r8_spec(a, r8);
    let res = wsub8(v, 1);
    exists|m: GameBoy|
        #[trigger] set_r8_post(a, m, r8, res)
        && b == with_regs(m, Registers { f: f_znh(m.r.f, res == 0, true, (v & 0xF) == 0), ..m.r })
}

/// Two bytes pushed onto the stack: SP drops by two, `hi` lands at
/// SP−1 and `lo` at SP−2, each through the full bus semantics.
pub open spec fn push16_post(a: GameBoy, b: GameBoy, hi: u8, lo: u8) -> bool {
    exists|m: GameBoy|
        #[trigger] write_post(
            GameBoy { r: Registers { sp: wsub16(a.r.sp, 1), ..a.r }, ..a },
            m,
            wsub16(a.r.sp, 1),
            hi,
        ) && write_post(
            GameBoy { r: Registers { sp: wsub16(a.r.sp, 2), ..m.r }, ..m },
            b,
            wsub16(a.r.sp, 2),
            lo,
        )
}

/// The register file after ADD HL, r16.
pub open spec fn add_hl_regs(r: Registers, r16: u8) -> Registers {
    let left = spec_hl(r);
    let right = get_r16_group_1_spec(r, r16);
    let res = wadd16(left, right);
    Registers {
        h: spec_msb(res),
        l: spec_lsb(res),
        f: f_nhc(r.f, false, (left & 0xFFF) + (right & 0xFFF) > 0xFFF, left + right > 0xFFFF),
        ..r
    }
}

/// The register file after JR: PC steps past the immediate and, when
/// the condition held, moves by the sign-extended immediate.
pub open spec fn jr_regs(a: GameBoy, cond: bool) -> Registers {
    let e = read_spec(a, a.r.pc);
    let pc1 = wadd16(a.r.pc, 1);
    Registers { pc: if cond { wadd16(pc1, ((e as i8) as u16)) } else { pc1 }, ..a.r }
}

/// The register file after JP: PC lands at the immediate word when
/// the condition held, else just past it.
pub open spec fn jp_regs(a: GameBoy, cond: bool) -> Registers {
    Registers { pc: if cond { imm16(a) } else { wadd16(a.r.pc, 2) }, ..a.r }
}

/// Effect of CALL: when the condition held, the address just past the
/// immediate word is pushed and PC lands at the immediate word;
/// otherwise only the immediate is consumed.
pub open spec fn call_post(a: GameBoy, b: GameBoy, cond: bool) -> bool {
    let a1 = with_regs(a, Registers { pc: wadd16(a.r.pc, 2), ..a.r });
    if cond {
        exists|m: GameBoy|
            #[trigger] push16_post(a1, m, spec_msb(a1.r.pc), spec_lsb(a1.r.pc))
            && b == with_regs(m, Registers { pc: imm16(a), ..m.r })
    } else {
        b == a1
    }
}

/// The register file after RET: PC popped from the stack, SP up by two.
pub open spec fn ret_regs(a: GameBoy) -> Registers {
    Registers {
        sp: wadd16(a.r.sp, 2),
        pc: spec_u16(read_spec(a, wadd16(a.r.sp, 1)), read_spec(a, a.r.sp)),
        ..a.r
    }
}

/// Effect of RST: PC pushed, then set to the fixed target `exp`.
pub open spec fn rst_post(a: GameBoy, b: GameBoy, exp: u8) -> bool {
    exists|m: GameBoy|
        #[trigger] push16_post(a, m, spec_msb(a.r.pc), spec_lsb(a.r.pc))
        && b == with_regs(m, Registers { pc: spec_u16(0x00, exp), ..m.r })
}

/// Effect of PUSH r16 on a group-3 pair; pushing AF masks the low
/// nibble of F on its way to the stack.
pub open spec fn push_r16_post(a: GameBoy, b: GameBoy, r16: u8) -> bool {
    let v = get_r16_group_3_spec(a.r, r16);
    let mask: u8 = if r16 == 3 { 0xF0 } else { 0xFF };
    push16_post(a, b, spec_msb(v), spec_lsb(v) & mask)
}

/// The register file after POP r16; popping AF masks the low nibble
/// of the flag byte to zero.
pub open spec fn pop_r16_regs(a: GameBoy, r16: u8) -> Registers {
    let mask: u8 = if r16 == 3 { 0xF0 } else { 0xFF };
    let lo = read_spec(a, a.r.sp) & mask;
    let hi = read_spec(a, wadd16(a.r.sp, 1));
    set_r16_group_3_regs(Registers { sp: wadd16(a.r.sp, 2), ..a.r }, r16, spec_u16(hi, lo))
}

/// Effect of LD (u16), SP: SP's low byte lands at the immediate
/// address, its high byte one above.
pub open spec fn ld_u16_sp_post(a: GameBoy, b: GameBoy) -> bool {
    let nn = imm16(a);
    let a1 = with_regs(a, Registers { pc: wadd16(a.r.pc, 2), ..a.r });
    exists|m: GameBoy|
        #[trigger] write_post(a1, m, nn, spec_lsb(a.r.sp))
        && write_post(m, b, wadd16(nn, 1), spec_msb(a.r.sp))
}

/// The register file after ADD SP, e (`to_sp` true) or LD HL, SP+e
/// (`to_sp` false): Z and N cleared, H and C from the low byte of
/// SP plus the raw immediate.
pub open spec fn sp_e_regs(a: GameBoy, to_sp: bool) -> Registers {
    let e = read_spec(a, a.r.pc);
    let f = f_znhc(
        a.r.f,
        false,
        false,
        (a.r.sp & 0xF) + (e & 0xF) > 0xF,
        (a.r.sp & 0xFF) + e > 0xFF,
    );
    let res = wadd16(a.r.sp, ((e as i8) as u16));
    if to_sp {
        Registers { pc: wadd16(a.r.pc, 1), sp: res, f, ..a.r }
    } else {
        Registers { pc: wadd16(a.r.pc, 1), h: spec_msb(res), l: spec_lsb(res), f, ..a.r }
    }
}

impl GameBoy {
    /// Read the immediate byte at PC and step past it.
    fn read_imm8(&mut self) -> (n: u8)
        requires
            old(self).wf(),
        ensures
            final(self).wf(),
            n == read_spec(*old(self), old(self).r.pc),
            *final(self) == with_regs(*old(self), (Registers { pc: wadd16(old(self).r.pc, 1), ..old(self).r })),
    {
        let n = self.read(self.r.pc);
        self.r.pc = self.r.pc.wrapping_add(1);
        n
    }

    /// Whether condition code `cc` (NZ, Z, NC, C) holds.
    fn condition(&self, cc: u8) -> (r: bool)
        ensures
            r == cc_holds(self.r, cc),
    {
        if cc == 0 {
            self.get_flag_z() == 0
        } else if cc == 1 {
            self.get_flag_z() != 0
        } else if cc == 2 {
            self.get_flag_c() == 0
        } else {
            self.get_flag_c() != 0
        }
    }

    /// One 8-bit accumulator operation against operand byte `x`.
    fn op_alu(&mut self, kind: u8, x: u8)
        requires
            kind < 8,
        ensures
            *final(self) == with_regs(*old(self), alu_regs(old(self).r, kind, x)),
    {
        if kind == 0 {
            let left = self.r.a;
            self.r.a = left.wrapping_add(x);
            self.set_flag_z(self.r.a == 0);
            self.set_flag_n(false);
            self.set_flag_h(((left & 0xF) as u16) + ((x & 0xF) as u16) > 0xF);
            self.set_flag_c((left as u16) + (x as u16) > 0xFF);
        } else if kind == 1 {
            let c_save = self.get_flag_c();
            let left = self.r.a;
            self.r.a = left.wrapping_add(x).wrapping_add(c_save);
            self.set_flag_z(self.r.a == 0);
            self.set_flag_n(false);
            self.set_flag_h(((left & 0xF) as u16) + ((x & 0xF) as u16) + (c_save as u16) > 0xF);
            self.set_flag_c((left as u16) + (x as u16) + (c_save as u16) > 0xFF);
        } else if kind == 2 {
            let left = self.r.a;
            self.r.a = left.wrapping_sub(x);
            self.set_flag_z(self.r.a == 0);
            self.set_flag_n(true);
            self.set_flag_h((left & 0xF) < (x & 0xF));
            self.set_flag_c(left < x);
        } else if kind == 3 {
            let c_save = self.get_flag_c();
            let left = self.r.a;
            self.r.a = left.wrapping_sub(x).wrapping_sub(c_save);
            self.set_flag_z(self.r.a == 0);
            self.set_flag_n(true);
            self.set_flag_h(((left & 0xF) as u16) < ((x & 0xF) as u16) + (c_save as u16));
            self.set_flag_c((left as u16) < (x as u16) + (c_save as u16));
        } else if kind == 4 {
            self.r.a = self.r.a & x;
            self.set_flag_z(self.r.a == 0);
            self.set_flag_n(false);
            self.set_flag_h(true);
            self.set_flag_c(false);
        } else if kind == 5 {
            self.r.a = self.r.a ^ x;
            self.set_flag_z(self.r.a == 0);
            self.set_flag_n(false);
            self.set_flag_h(false);
            self.set_flag_c(false);
        } else if kind == 6 {
            self.r.a = self.r.a | x;
            self.set_flag_z(self.r.a == 0);
            self.set_flag_n(false);
            self.set_flag_h(false);
            self.set_flag_c(false);
        } else {
            let left = self.r.a;
            let result = left.wrapping_sub(x);
            self.set_flag_z(result == 0);
            self.set_flag_n(true);
            self.set_flag_h((left & 0xF) < (x & 0xF));
            self.set_flag_c(left < x);
        }
    }

    /// One of the four accumulator rotates.
    fn op_rotate_a(&mut self, kind: u8)
        requires
            kind < 4,
        ensures
            *final(self) == with_regs(*old(self), rot_a_regs(old(self).r, kind)),
    {
        if kind == 0 {
            let ms_bit = self.r.a & 0x80;
            self.r.a = (self.r.a << 1) | (ms_bit >> 7);
            self.set_flag_z(false);
            self.set_flag_n(false);
            self.set_flag_h(false);
            self.set_flag_c(ms_bit != 0);
        } else if kind == 1 {
            let ls_bit = self.r.a & 1;
            self.r.a = (self.r.a >> 1) | (ls_bit << 7);
            self.set_flag_z(false);
            self.set_flag_n(false);
            self.set_flag_h(false);
            self.set_flag_c(ls_bit != 0);
        } else if kind == 2 {
            let ms_bit = self.r.a & 0x80;
            self.r.a = (self.r.a << 1) | self.get_flag_c();
            self.set_flag_z(false);
            self.set_flag_n(false);
            self.set_flag_h(false);
            self.set_flag_c(ms_bit != 0);
        } else {
            let ls_bit = self.r.a & 1;
            self.r.a = (self.r.a >> 1) | (self.get_flag_c() << 7);
            self.set_flag_z(false);
            self.set_flag_n(false);
            self.set_flag_h(false);
            self.set_flag_c(ls_bit != 0);
        }
    }

    /// Decimal-adjust the accumulator after a BCD addition or
    /// subtraction.
    fn op_daa(&mut self)
        ensures
            *final(self) == with_regs(*old(self), daa_regs(old(self).r)),
    {
        if self.get_flag_n() != 0 {
            let mut adjustment: u8 = 0;
            if self.get_flag_h() != 0 {
                adjustment = adjustment + 6;
            }
            if self.get_flag_c() != 0 {
                adjustment = adjustment + 0x60;
            }
            self.r.a = self.r.a.wrapping_sub(adjustment);
        } else {
            let mut adjustment: u8 = 0;
            if self.get_flag_h() != 0 || (self.r.a & 0xF) > 9 {
                adjustment = adjustment + 6;
            }
            if self.get_flag_c() != 0 || self.r.a > 0x99 {
                adjustment = adjustment + 0x60;
                self.set_flag_c(true);
            }
            self.r.a = self.r.a.wrapping_add(adjustment);
        }
        self.set_flag_z(self.r.a == 0);
        self.set_flag_h(false);
    }

    /// INC on 8-bit operand `r8`.
    fn op_inc_r8(&mut self, r8: u8)
        requires
            old(self).wf(),
            r8 < 8,
        ensures
            final(self).wf(),
            inc_r8_post(*old(self), *final(self), r8),
            old(self).flags_ok() ==> final(self).flags_ok(),
            final(self).clock == old(self).clock,
            final(self).test_mode == old(self).test_mode,
    {
        let v = self.get_r8(r8);
        let res = v.wrapping_add(1);
        self.set_r8(r8, res);
        let ghost m = *self;
        self.set_flag_z(res == 0);
        self.set_flag_n(false);
        self.set_flag_h(((v & 0xF) as u16) + 1 > 0xF);
        proof {
            assert(set_r8_post(*old(self), m, r8, res));
            if r8 == 6 {
                crate::memory::lemma_write_keeps_cpu(*old(self), m, spec_hl(old(self).r), res);
            }
        }
    }

    /// DEC on 8-bit operand `r8`.
    fn op_dec_r8(&mut self, r8: u8)
        requires
            old(self).wf(),
            r8 < 8,
        ensures
            final(self).wf(),
            dec_r8_post(*old(self), *final(self), r8),
            old(self).flags_ok() ==> final(self).flags_ok(),
            final(self).clock == old(self).clock,
            final(self).test_mode == old(self).test_mode,
    {
        let v = self.get_r8(r8);
        let res = v.wrapping_sub(1);
        self.set_r8(r8, res);
        let ghost m = *self;
        self.set_flag_z(res == 0);
        self.set_flag_n(true);
        self.set_flag_h((v & 0xF) == 0);
        proof {
            assert(set_r8_post(*old(self), m, r8, res));
            if r8 == 6 {
                crate::memory::lemma_write_keeps_cpu(*old(self), m, spec_hl(old(self).r), res);
            }
        }
    }

    /// LD r16, u16: load a group-1 pair with the immediate word.
    #[verifier::rlimit(60)]
    fn op_ld_r16_u16(&mut self, r16: u8)
        requires
            old(self).wf(),
            r16 < 4,
        ensures
            final(self).wf(),
            *final(self) == with_regs(
                *old(self),
                set_r16_group_1_regs(
                    Registers { pc: wadd16(old(self).r.pc, 2), ..old(self).r },
                    r16,
                    imm16(*old(self)),
                ),
            ),
    {
        let lsb_b = self.read_imm8();
        let msb_b = self.read_imm8();
        self.set_r16_group_1(r16, crate::util::unsigned_16(msb_b, lsb_b));
    }

    /// INC r16: a modular 16-bit increment, no flag effects.
    fn op_inc_r16(&mut self, r16: u8)
        requires
            r16 < 4,
        ensures
            *final(self) == with_regs(
                *old(self),
                set_r16_group_1_regs(
                    old(self).r,
                    r16,
                    wadd16(get_r16_group_1_spec(old(self).r, r16), 1),
                ),
            ),
    {
        let v = self.get_r16_group_1(r16);
        self.set_r16_group_1(r16, v.wrapping_add(1));
    }

    /// DEC r16: a modular 16-bit decrement, no flag effects.
    fn op_dec_r16(&mut self, r16: u8)
        requires
            r16 < 4,
        ensures
            *final(self) == with_regs(
                *old(self),
                set_r16_group_1_regs(
                    old(self).r,
                    r16,
                    wsub16(get_r16_group_1_spec(old(self).r, r16), 1),
                ),
            ),
    {
        let v = self.get_r16_group_1(r16);
        self.set_r16_group_1(r16, v.wrapping_sub(1));
    }

    /// ADD HL, r16: 16-bit add into HL; N cleared, H from bit 11,
    /// C from bit 15, Z untouched.
    fn op_add_hl_r16(&mut self, r16: u8)
        requires
            r16 < 4,
        ensures
            *final(self) == with_regs(*old(self), add_hl_regs(old(self).r, r16)),
    {
        let left = self.get_hl();
        let right = self.get_r16_group_1(r16);
        let result = left.wrapping_add(right);
        self.set_hl(result);
        self.set_flag_n(false);
        self.set_flag_h(((left & 0xFFF) as u32) + ((right & 0xFFF) as u32) > 0xFFF);
        self.set_flag_c((left as u32) + (right as u32) > 0xFFFF);
    }

    /// LD (r16), A: store the accumulator through a group-2 pointer.
    fn op_ld_r16mem_a(&mut self, r16: u8)
        requires
            old(self).wf(),
            r16 < 4,
        ensures
            final(self).wf(),
            write_post(
                with_regs(*old(self), get_r16_group_2_spec(old(self).r, r16).1),
                *final(self),
                get_r16_group_2_spec(old(self).r, r16).0,
                old(self).r.a,
            ),
            final(self).r.f == old(self).r.f,
            final(self).clock == old(self).clock,
            final(self).test_mode == old(self).test_mode,
    {
        let addr = self.get_r16_group_2(r16);
        let ghost pre = *self;
        let v = self.r.a;
        self.write(addr, v);
        proof {
            crate::memory::lemma_write_keeps_cpu(pre, *self, addr, v);
        }
    }

    /// LD A, (r16): load the accumulator through a group-2 pointer.
    fn op_ld_a_r16mem(&mut self, r16: u8)
        requires
            old(self).wf(),
            r16 < 4,
        ensures
            final(self).wf(),
            *final(self) == with_regs(
                *old(self),
                Registers {
                    a: read_spec(*old(self), get_r16_group_2_spec(old(self).r, r16).0),
                    ..get_r16_group_2_spec(old(self).r, r16).1
                },
            ),
    {
        let addr = self.get_r16_group_2(r16);
        self.r.a = self.read(addr);
    }

    /// LD r8, u8: store the immediate byte to an 8-bit operand.
    fn op_ld_r8_u8(&mut self, r8: u8)
        requires
            old(self).wf(),
            r8 < 8,
        ensures
            final(self).wf(),
            set_r8_post(
                with_regs(*old(self), (Registers { pc: wadd16(old(self).r.pc, 1), ..old(self).r })),
                *final(self),
                r8,
                read_spec(*old(self), old(self).r.pc),
            ),
            final(self).r.f == old(self).r.f,
            final(self).clock == old(self).clock,
            final(self).test_mode == old(self).test_mode,
    {
        let n = self.read_imm8();
        let ghost pre = *self;
        self.set_r8(r8, n);
        proof {
            if r8 == 6 {
                crate::memory::lemma_write_keeps_cpu(pre, *self, spec_hl(pre.r), n);
            }
        }
    }

    /// JR: a relative jump by the sign-extended immediate when `cond`
    /// holds; the immediate is consumed either way.
    fn op_jr(&mut self, cond: bool)
        requires
            old(self).wf(),
        ensures
            final(self).wf(),
            *final(self) == with_regs(*old(self), jr_regs(*old(self), cond)),
    {
        let e = self.read_imm8();
        if cond {
            self.r.pc = self.r.pc.wrapping_add((e as i8) as u16);
        }
    }

    /// JP: an absolute jump to the immediate word when `cond` holds;
    /// both immediate bytes are consumed either way.
    #[verifier::rlimit(60)]
    fn op_jp_imm(&mut self, cond: bool)
        requires
            old(self).wf(),
        ensures
            final(self).wf(),
            *final(self) == with_regs(*old(self), jp_regs(*old(self), cond)),
    {
        let lsb_b = self.read_imm8();
        let msb_b = self.read_imm8();
        if cond {
            self.r.pc = crate::util::unsigned_16(msb_b, lsb_b);
        }
    }

    /// CALL: when `cond` holds, push the return address (past the
    /// immediate word) and jump to the immediate word.
    #[verifier::rlimit(60)]
    fn op_call(&mut self, cond: bool)
        requires
            old(self).wf(),
        ensures
            final(self).wf(),
            call_post(*old(self), *final(self), cond),
            final(self).r.f == old(self).r.f,
            final(self).clock == old(self).clock,
            final(self).test_mode == old(self).test_mode,
    {
        let lsb_b = self.read_imm8();
        let msb_b = self.read_imm8();
        if cond {
            let pc = self.r.pc;
            let hi = crate::util::msb(pc);
            let lo = crate::util::lsb(pc);
            self.push16(hi, lo);
            self.r.pc = crate::util::unsigned_16(msb_b, lsb_b);
        }
    }

    /// RET: pop the return address into PC.
    fn op_ret(&mut self)
        requires
            old(self).wf(),
        ensures
            final(self).wf(),
            *final(self) == with_regs(*old(self), ret_regs(*old(self))),
    {
        let lo = self.read(self.r.sp);
        self.r.sp = self.r.sp.wrapping_add(1);
        let hi = self.read(self.r.sp);
        self.r.sp = self.r.sp.wrapping_add(1);
        self.r.pc = crate::util::unsigned_16(hi, lo);
    }

    /// RST: push PC and jump to the fixed target encoded in the opcode.
    fn op_rst(&mut self, exp: u8)
        requires
            old(self).wf(),
        ensures
            final(self).wf(),
            rst_post(*old(self), *final(self), exp),
            final(self).r.f == old(self).r.f,
            final(self).clock == old(self).clock,
            final(self).test_mode == old(self).test_mode,
    {
        let pc = self.r.pc;
        let hi = crate::util::msb(pc);
        let lo = crate::util::lsb(pc);
        self.push16(hi, lo);
        self.r.pc = crate::util::unsigned_16(0x00, exp);
    }

    /// PUSH r16: push a group-3 pair; with AF, the low nibble of F is
    /// masked away on its way to the stack.
    fn op_push_r16(&mut self, r16: u8)
        requires
            old(self).wf(),
            r16 < 4,
        ensures
            final(self).wf(),
            push_r16_post(*old(self), *final(self), r16),
            final(self).r.f == old(self).r.f,
            final(self).clock == old(self).clock,
            final(self).test_mode == old(self).test_mode,
    {
        let v = self.get_r16_group_3(r16);
        let mask: u8 = if r16 == 3 { 0xF0 } else { 0xFF };
        let hi = crate::util::msb(v);
        let lo = crate::util::lsb(v) & mask;
        self.push16(hi, lo);
    }

    /// POP r16: pop a group-3 pair; with AF, the low nibble of the
    /// popped flag byte reads as zero.
    fn op_pop_r16(&mut self, r16: u8)
        requires
            old(self).wf(),
            r16 < 4,
        ensures
            final(self).wf(),
            *final(self) == with_regs(*old(self), pop_r16_regs(*old(self), r16)),
    {
        let mask: u8 = if r16 == 3 { 0xF0 } else { 0xFF };
        let lo = self.read(self.r.sp) & mask;
        self.r.sp = self.r.sp.wrapping_add(1);
        let hi = self.read(self.r.sp);
        self.r.sp = self.r.sp.wrapping_add(1);
        self.set_r16_group_3(r16, crate::util::unsigned_16(hi, lo));
    }

    /// LD (u16), SP: store SP's two bytes at the immediate address.
    #[verifier::rlimit(60)]
    fn op_ld_u16_sp(&mut self)
        requires
            old(self).wf(),
        ensures
            final(self).wf(),
            ld_u16_sp_post(*old(self), *final(self)),
            final(self).r.f == old(self).r.f,
            final(self).clock == old(self).clock,
            final(self).test_mode == old(self).test_mode,
    {
        let nn_lsb = self.read_imm8();
        let nn_msb = self.read_imm8();
        let nn = crate::util::unsigned_16(nn_msb, nn_lsb);
        let sp_lo = crate::util::lsb(self.r.sp);
        let sp_hi = crate::util::msb(self.r.sp);
        let ghost a1 = *self;
        self.write(nn, sp_lo);
        let ghost m = *self;
        self.write(nn.wrapping_add(1), sp_hi);
        proof {
            let a0 = *old(self);
            assert(a1 == with_regs(a0, Registers { pc: wadd16(a0.r.pc, 2), ..a0.r }));
            assert(nn == imm16(a0));
            assert(write_post(a1, m, imm16(a0), spec_lsb(a0.r.sp)));
            assert(write_post(m, *self, wadd16(imm16(a0), 1), spec_msb(a0.r.sp)));
            crate::memory::lemma_write_keeps_cpu(a1, m, imm16(a0), spec_lsb(a0.r.sp));
            crate::memory::lemma_write_keeps_cpu(m, *self, wadd16(imm16(a0), 1), spec_msb(a0.r.sp));
        }
    }

    /// ADD SP, e: add the sign-extended immediate to SP; Z and N
    /// cleared, H and C from the low byte of the addition.
    fn op_add_sp_e(&mut self)
        requires
            old(self).wf(),
        ensures
            final(self).wf(),
            *final(self) == with_regs(*old(self), sp_e_regs(*old(self), true)),
    {
        let e = self.read_imm8();
        self.set_flag_z(false);
        self.set_flag_n(false);
        self.set_flag_h(((self.r.sp & 0xF) as u32) + ((e & 0xF) as u32) > 0xF);
        self.set_flag_c(((self.r.sp & 0xFF) as u32) + (e as u32) > 0xFF);
        self.r.sp = self.r.sp.wrapping_add((e as i8) as u16);
    }

    /// LD HL, SP+e: like ADD SP, e, but the sum lands in HL and SP is
    /// untouched.
    fn op_ld_hl_sp_e(&mut self)
        requires
            old(self).wf(),
        ensures
            final(self).wf(),
            *final(self) == with_regs(*old(self), sp_e_regs(*old(self), false)),
    {
        let e = self.read_imm8();
        self.set_flag_z(false);
        self.set_flag_n(false);
        self.set_flag_h(((self.r.sp & 0xF) as u32) + ((e & 0xF) as u32) > 0xF);
        self.set_flag_c(((self.r.sp & 0xFF) as u32) + (e as u32) > 0xFF);
        let v = self.r.sp.wrapping_add((e as i8) as u16);
        self.set_hl(v);
    }

    /// LDH (u8), A: store the accumulator into the high page.
    #[verifier::rlimit(60)]
    fn op_ldh_u8_a(&mut self)
        requires
            old(self).wf(),
        ensures
            final(self).wf(),
            write_post(
                with_regs(*old(self), (Registers { pc: wadd16(old(self).r.pc, 1), ..old(self).r })),
                *final(self),
                spec_u16(0xFF, read_spec(*old(self), old(self).r.pc)),
                old(self).r.a,
            ),
            final(self).r.f == old(self).r.f,
            final(self).clock == old(self).clock,
            final(self).test_mode == old(self).test_mode,
    {
        let n = self.read_imm8();
        let addr = crate::util::unsigned_16(0xFF, n);
        let ghost pre = *self;
        let v = self.r.a;
        self.write(addr, v);
        proof {
            crate::memory::lemma_write_keeps_cpu(pre, *self, addr, v);
        }
    }

    /// LDH A, (u8): load the accumulator from the high page.
    #[verifier::rlimit(60)]
    fn op_ldh_a_u8(&mut self)
        requires
            old(self).wf(),
        ensures
            final(self).wf(),
            *final(self) == with_regs(
                *old(self),
                Registers {
                    a: read_spec(*old(self), spec_u16(0xFF, read_spec(*old(self), old(self).r.pc))),
                    pc: wadd16(old(self).r.pc, 1),
                    ..old(self).r
                },
            ),
    {
        let n = self.read_imm8();
        let addr = crate::util::unsigned_16(0xFF, n);
        self.r.a = self.read(addr);
    }

    /// LD (u16), A: store the accumulator at the immediate address.
    #[verifier::rlimit(60)]
    fn op_ld_u16_a(&mut self)
        requires
            old(self).wf(),
        ensures
            final(self).wf(),
            write_post(
                with_regs(*old(self), (Registers { pc: wadd16(old(self).r.pc, 2), ..old(self).r })),
                *final(self),
                imm16(*old(self)),
                old(self).r.a,
            ),
            final(self).r.f == old(self).r.f,
            final(self).clock == old(self).clock,
            final(self).test_mode == old(self).test_mode,
    {
        let lsb_b = self.read_imm8();
        let msb_b = self.read_imm8();
        let addr = crate::util::unsigned_16(msb_b, lsb_b);
        let ghost pre = *self;
        let v = self.r.a;
        self.write(addr, v);
        proof {
            crate::memory::lemma_write_keeps_cpu(pre, *self, addr, v);
        }
    }

    /// LD A, (u16): load the accumulator from the immediate address.
    #[verifier::rlimit(60)]
    fn op_ld_a_u16(&mut self)
        requires
            old(self).wf(),
        ensures
            final(self).wf(),
            *final(self) == with_regs(
                *old(self),
                Registers {
                    a: read_spec(*old(self), imm16(*old(self))),
                    pc: wadd16(old(self).r.pc, 2),
                    ..old(self).r
                },
            ),
    {
        let lsb_b = self.read_imm8();
        let msb_b = self.read_imm8();
        let addr = crate::util::unsigned_16(msb_b, lsb_b);
        self.r.a = self.read(addr);
    }

    /// Push a 16-bit value's two bytes onto the stack.
    fn push16(&mut self, hi: u8, lo: u8)
        requires
            old(self).wf(),
        ensures
            final(self).wf(),
            push16_post(*old(self), *final(self), hi, lo),
            final(self).r.f == old(self).r.f,
            final(self).r.pc == old(self).r.pc,
            final(self).clock == old(self).clock,
            final(self).test_mode == old(self).test_mode,
    {
        let ghost a = *old(self);
        self.r.sp = self.r.sp.wrapping_sub(1);
        let sp1 = self.r.sp;
        self.write(sp1, hi);
        let ghost m = *self;
        self.r.sp = self.r.sp.wrapping_sub(1);
        let sp2 = self.r.sp;
        proof {
            assert(sp2 == wsub16(a.r.sp, 2));
        }
        self.write(sp2, lo);
        proof {
            let pre1 = GameBoy { r: Registers { sp: wsub16(a.r.sp, 1), ..a.r }, ..a };
            assert(write_post(pre1, m, wsub16(a.r.sp, 1), hi));
            crate::memory::lemma_write_keeps_cpu(pre1, m, wsub16(a.r.sp, 1), hi);
            let pre2 = GameBoy { r: Registers { sp: wsub16(a.r.sp, 2), ..m.r }, ..m };
            crate::memory::lemma_write_keeps_cpu(pre2, *self, wsub16(a.r.sp, 2), lo);
        }
    }
}

/// The result of a CB-prefix shift or rotate on byte `v`: RLC, RRC,
/// RL, RR, SLA, SRA, SWAP, SRL, selected by the middle octal digit.
pub open spec fn rot_result(v: u8, kind: u8, c_in: u8) -> u8 {
    if kind == 0 { (v << 1) | ((v & 0x80) >> 7) }
    else if kind == 1 { (v >> 1) | ((v & 1) << 7) }
    else if kind == 2 { (v << 1) | c_in }
    else if kind == 3 { (v >> 1) | (c_in << 7) }
    else if kind == 4 { v << 1 }
    else if kind == 5 { (v >> 1) | (v & 0x80) }
    else if kind == 6 { ((v & 0xF0) >> 4) | ((v & 0x0F) << 4) }
    else { v >> 1 }
}

/// The bit a CB-prefix shift or rotate ejects into the carry flag;
/// SWAP always clears it.
pub open spec fn rot_carry(v: u8, kind: u8) -> bool {
    if kind == 0 || kind == 2 || kind == 4 { v & 0x80 != 0 }
    else if kind == 6 { false }
    else { v & 1 != 0 }
}

/// Machine-cycle cost of a CB-prefixed operation: two on a register,
/// four through (HL) — three for BIT, which only reads.
pub open spec fn cb_cycles(cb: u8) -> u8 {
    if cb >> 6 == 1 {
        if cb & 7 == 6 { 3u8 } else { 2u8 }
    } else {
        if cb & 7 == 6 { 4u8 } else { 2u8 }
    }
}

/// Effect of a CB-prefix shift or rotate on operand `r8`, from the
/// state just past the prefix byte.
pub open spec fn cb_rot_post(a: GameBoy, b: GameBoy, r8: u8, kind: u8) -> bool {
    let v = get_r8_spec(a, r8);
    let res = rot_result(v, kind, spec_flag_c(a.r));
    exists|m: GameBoy|
        #[trigger] set_r8_post(a, m, r8, res)
        && b == with_regs(m, Registers {
            f: f_znhc(m.r.f, res == 0, false, false, rot_carry(v, kind)),
            ..m.r
        })
}

/// Full effect of a CB-prefixed operation.  The second opcode byte
/// selects a shift/rotate, BIT, RES or SET over an 8-bit operand.
pub open spec fn cb_post(a: GameBoy, b: GameBoy) -> bool {
    let cb = read_spec(a, a.r.pc);
    let a1 = with_regs(a, Registers { pc: wadd16(a.r.pc, 1), ..a.r });
    let r8 = cb & 7;
    let bit = (cb >> 3) & 7;
    let v = get_r8_spec(a1, r8);
    if cb >> 6 == 0 {
        cb_rot_post(a1, b, r8, bit)
    } else if cb >> 6 == 1 {
        b == with_regs(a1, Registers { f: f_znh(a1.r.f, v & (1u8 << bit) == 0, false, true), ..a1.r })
    } else if cb >> 6 == 2 {
        set_r8_post(a1, b, r8, v & !(1u8 << bit))
    } else {
        set_r8_post(a1, b, r8, v | (1u8 << bit))
    }
}

impl GameBoy {
    /// One CB-prefix shift or rotate on operand `r8`.
    #[verifier::rlimit(100)]
    fn op_cb_rot(&mut self, r8: u8, kind: u8)
        requires
            old(self).wf(),
            r8 < 8,
            kind < 8,
        ensures
            final(self).wf(),
            cb_rot_post(*old(self), *final(self), r8, kind),
            old(self).flags_ok() ==> final(self).flags_ok(),
            final(self).clock == old(self).clock,
            final(self).test_mode == old(self).test_mode,
    {
        let v = self.get_r8(r8);
        let c_in = self.get_flag_c();
        let res: u8 = if kind == 0 { (v << 1) | ((v & 0x80) >> 7) }
            else if kind == 1 { (v >> 1) | ((v & 1) << 7) }
            else if kind == 2 { (v << 1) | c_in }
            else if kind == 3 { (v >> 1) | (c_in << 7) }
            else if kind == 4 { v << 1 }
            else if kind == 5 { (v >> 1) | (v & 0x80) }
            else if kind == 6 { ((v & 0xF0) >> 4) | ((v & 0x0F) << 4) }
            else { v >> 1 };
        let carry: bool = if kind == 0 || kind == 2 || kind == 4 { v & 0x80 != 0 }
            else if kind == 6 { false }
            else { v & 1 != 0 };
        self.set_r8(r8, res);
        let ghost m = *self;
        self.set_flag_z(res == 0);
        self.set_flag_n(false);
        self.set_flag_h(false);
        self.set_flag_c(carry);
        proof {
            assert(set_r8_post(*old(self), m, r8, res));
            if r8 == 6 {
                crate::memory::lemma_write_keeps_cpu(*old(self), m, spec_hl(old(self).r), res);
            }
        }
    }

    /// CB-prefix BIT: test one bit of an operand; only flags change.
    fn op_cb_bit(&mut self, r8: u8, bit: u8)
        requires
            old(self).wf(),
            bit < 8,
        ensures
            final(self).wf(),
            *final(self) == with_regs(*old(self), (Registers {
                f: f_znh(old(self).r.f, get_r8_spec(*old(self), r8) & (1u8 << bit) == 0, false, true),
                ..old(self).r
            })),
            old(self).flags_ok() ==> final(self).flags_ok(),
    {
        let v = self.get_r8(r8);
        self.set_flag_z(v & (1u8 << bit) == 0);
        self.set_flag_n(false);
        self.set_flag_h(true);
    }

    /// CB-prefix RES or SET: clear or set one bit of an operand.
    fn op_cb_res_set(&mut self, r8: u8, bit: u8, set: bool)
        requires
            old(self).wf(),
            r8 < 8,
            bit < 8,
        ensures
            final(self).wf(),
            set_r8_post(*old(self), *final(self), r8, if set {
                get_r8_spec(*old(self), r8) | (1u8 << bit)
            } else {
                get_r8_spec(*old(self), r8) & !(1u8 << bit)
            }),
            final(self).r.f == old(self).r.f,
            final(self).clock == old(self).clock,
            final(self).test_mode == old(self).test_mode,
    {
        let v = self.get_r8(r8);
        let res: u8 = if set { v | (1u8 << bit) } else { v & !(1u8 << bit) };
        let ghost pre = *self;
        self.set_r8(r8, res);
        proof {
            if r8 == 6 {
                crate::memory::lemma_write_keeps_cpu(pre, *self, spec_hl(pre.r), res);
            }
        }
    }

    /// Execute a CB-prefixed operation; the second opcode byte is the
    /// immediate at PC.
    #[verifier::rlimit(60)]
    fn op_cb(&mut self) -> (r: Option<u8>)
        requires
            old(self).wf(),
        ensures
            final(self).wf(),
            cb_post(*old(self), *final(self)),
            r == Some(cb_cycles(read_spec(*old(self), old(self).r.pc))),
            old(self).flags_ok() ==> final(self).flags_ok(),
            final(self).clock == old(self).clock,
            final(self).test_mode == old(self).test_mode,
    {
        let cb = self.read_imm8();
        let r8 = cb & 0b111;
        let bit = (cb >> 3) & 0b111;
        proof {
            assert(cb & 7 < 8 && (cb >> 3) & 7 < 8) by (bit_vector);
        }
        if cb >> 6 == 0 {
            self.op_cb_rot(r8, bit);
            if r8 == 6 { Some(4) } else { Some(2) }
        } else if cb >> 6 == 1 {
            self.op_cb_bit(r8, bit);
            if r8 == 6 { Some(3) } else { Some(2) }
        } else if cb >> 6 == 2 {
            self.op_cb_res_set(r8, bit, false);
            if r8 == 6 { Some(4) } else { Some(2) }
        } else {
            self.op_cb_res_set(r8, bit, true);
            if r8 == 6 { Some(4) } else { Some(2) }
        }
    }

    /// LD r8, r8: move one 8-bit operand to another.
    fn op_ld_r8_r8(&mut self, dest: u8, src: u8)
        requires
            old(self).wf(),
            dest < 8,
        ensures
            final(self).wf(),
            set_r8_post(*old(self), *final(self), dest, get_r8_spec(*old(self), src)),
            final(self).r.f == old(self).r.f,
            final(self).clock == old(self).clock,
            final(self).test_mode == old(self).test_mode,
    {
        let v = self.get_r8(src);
        let ghost pre = *self;
        self.set_r8(dest, v);
        proof {
            if dest == 6 {
                crate::memory::lemma_write_keeps_cpu(pre, *self, spec_hl(pre.r), v);
            }
        }
    }
}

/// Full effect of one instruction on the machine, together with the
/// machine-cycle cost handed back to the idle counter.  The opcode has
/// already been fetched and PC points at its first immediate byte.
/// `None` stands for HALT (no further work until an interrupt) and
/// for the illegal opcodes, which perform nothing.
#[verifier::opaque]
pub open spec fn fde_post(a: GameBoy, b: GameBoy, opcode: u8, r: Option<u8>) -> bool {
    if opcode == 0x00 {
        b == a && r == Some(1u8)
    } else if opcode == 0x07 {
        b == with_regs(a, rot_a_regs(a.r, 0)) && r == Some(1u8)
    } else if opcode == 0x0F {
        b == with_regs(a, rot_a_regs(a.r, 1)) && r == Some(1u8)
    } else if opcode == 0x17 {
        b == with_regs(a, rot_a_regs(a.r, 2)) && r == Some(1u8)
    } else if opcode == 0x1F {
        b == with_regs(a, rot_a_regs(a.r, 3)) && r == Some(1u8)
    } else if opcode == 0x27 {
        b == with_regs(a, daa_regs(a.r)) && r == Some(1u8)
    } else if opcode == 0x2F {
        b == with_regs(a, (Registers { a: !a.r.a, f: f_nh(a.r.f, true, true), ..a.r })) && r == Some(1u8)
    } else if opcode == 0x37 {
        b == with_regs(a, (Registers { f: f_nhc(a.r.f, false, false, true), ..a.r })) && r == Some(1u8)
    } else if opcode == 0x3F {
        b == with_regs(a, (Registers { f: f_nhc(a.r.f, false, false, spec_flag_c(a.r) == 0), ..a.r }))
            && r == Some(1u8)
    } else if opcode == 0x08 {
        ld_u16_sp_post(a, b) && r == Some(5u8)
    } else if opcode == 0x10 {
        b == (GameBoy { state: State::Stopped, ..a }) && r == Some(1u8)
    } else if opcode == 0x18 {
        b == with_regs(a, jr_regs(a, true)) && r == Some(3u8)
    } else if opcode == 0x76 {
        b == (GameBoy { state: State::Halted, ..a }) && r is None
    } else if opcode == 0xCB {
        cb_post(a, b) && r == Some(cb_cycles(read_spec(a, a.r.pc)))
    } else if opcode == 0xE0 {
        write_post(
            with_regs(a, (Registers { pc: wadd16(a.r.pc, 1), ..a.r })),
            b,
            spec_u16(0xFF, read_spec(a, a.r.pc)),
            a.r.a,
        ) && r == Some(3u8)
    } else if opcode == 0xE8 {
        b == with_regs(a, sp_e_regs(a, true)) && r == Some(4u8)
    } else if opcode == 0xEA {
        write_post(
            with_regs(a, (Registers { pc: wadd16(a.r.pc, 2), ..a.r })),
            b,
            imm16(a),
            a.r.a,
        ) && r == Some(4u8)
    } else if opcode == 0xF0 {
        b == with_regs(a, (Registers {
            a: read_spec(a, spec_u16(0xFF, read_spec(a, a.r.pc))),
            pc: wadd16(a.r.pc, 1),
            ..a.r
        })) && r == Some(3u8)
    } else if opcode == 0xF2 {
        b == with_regs(a, (Registers { a: read_spec(a, spec_u16(0xFF, a.r.c)), ..a.r }))
            && r == Some(2u8)
    } else if opcode == 0xF8 {
        b == with_regs(a, sp_e_regs(a, false)) && r == Some(3u8)
    } else if opcode == 0xF9 {
        b == with_regs(a, (Registers { sp: spec_hl(a.r), ..a.r })) && r == Some(2u8)
    } else if opcode == 0xE2 {
        write_post(a, b, spec_u16(0xFF, a.r.c), a.r.a) && r == Some(2u8)
    } else if opcode == 0xFA {
        b == with_regs(a, (Registers { a: read_spec(a, imm16(a)), pc: wadd16(a.r.pc, 2), ..a.r }))
            && r == Some(4u8)
    } else if opcode == 0xCD {
        call_post(a, b, true) && r == Some(6u8)
    } else if opcode == 0xC9 {
        b == with_regs(a, ret_regs(a)) && r == Some(4u8)
    } else if opcode == 0xD9 {
        b == with_regs((GameBoy { ime: true, ..a }), ret_regs(a)) && r == Some(4u8)
    } else if opcode == 0xE9 {
        b == with_regs(a, (Registers { pc: spec_hl(a.r), ..a.r })) && r == Some(1u8)
    } else if opcode == 0xC6 {
        alu_imm_post(a, b, 0) && r == Some(2u8)
    } else if opcode == 0xCE {
        alu_imm_post(a, b, 1) && r == Some(2u8)
    } else if opcode == 0xD6 {
        alu_imm_post(a, b, 2) && r == Some(2u8)
    } else if opcode == 0xDE {
        alu_imm_post(a, b, 3) && r == Some(2u8)
    } else if opcode == 0xE6 {
        alu_imm_post(a, b, 4) && r == Some(2u8)
    } else if opcode == 0xEE {
        alu_imm_post(a, b, 5) && r == Some(2u8)
    } else if opcode == 0xF6 {
        alu_imm_post(a, b, 6) && r == Some(2u8)
    } else if opcode == 0xFE {
        alu_imm_post(a, b, 7) && r == Some(2u8)
    } else if opcode == 0xF3 {
        b == (GameBoy { ime: false, ime_dispatch: None, ..a }) && r == Some(1u8)
    } else if opcode == 0xFB {
        b == (GameBoy { ime_dispatch: Some(2u8), ..a }) && r == Some(1u8)
    } else {
        fde_patterned_post(a, b, opcode, r)
    }
}

/// One accumulator operation against the immediate byte.
pub open spec fn alu_imm_post(a: GameBoy, b: GameBoy, kind: u8) -> bool {
    b == with_regs(
        a,
        alu_regs((Registers { pc: wadd16(a.r.pc, 1), ..a.r }), kind, read_spec(a, a.r.pc)),
    )
}

/// The instructions decoded by bit pattern rather than by a fixed
/// opcode byte, tried in the same order as the interpreter.
pub open spec fn fde_patterned_post(a: GameBoy, b: GameBoy, opcode: u8, r: Option<u8>) -> bool {
    let r16 = (opcode >> 4) & 3;
    let cc = cc_holds(a.r, (opcode >> 3) & 3);
    if opcode & 0xCF == 0x01 {
        b == with_regs(a, set_r16_group_1_regs(
            (Registers { pc: wadd16(a.r.pc, 2), ..a.r }), r16, imm16(a),
        )) && r == Some(3u8)
    } else if opcode & 0xCF == 0x03 {
        b == with_regs(a, set_r16_group_1_regs(
            a.r, r16, wadd16(get_r16_group_1_spec(a.r, r16), 1),
        )) && r == Some(2u8)
    } else if opcode & 0xCF == 0x0B {
        b == with_regs(a, set_r16_group_1_regs(
            a.r, r16, wsub16(get_r16_group_1_spec(a.r, r16), 1),
        )) && r == Some(2u8)
    } else if opcode & 0xCF == 0x09 {
        b == with_regs(a, add_hl_regs(a.r, r16)) && r == Some(2u8)
    } else if opcode & 0xCF == 0x02 {
        write_post(
            with_regs(a, get_r16_group_2_spec(a.r, r16).1),
            b,
            get_r16_group_2_spec(a.r, r16).0,
            a.r.a,
        ) && r == Some(2u8)
    } else if opcode & 0xCF == 0x0A {
        b == with_regs(a, (Registers {
            a: read_spec(a, get_r16_group_2_spec(a.r, r16).0),
            ..get_r16_group_2_spec(a.r, r16).1
        })) && r == Some(2u8)
    } else if opcode & 0xC7 == 0x06 {
        set_r8_post(
            with_regs(a, (Registers { pc: wadd16(a.r.pc, 1), ..a.r })),
            b,
            opcode >> 3,
            read_spec(a, a.r.pc),
        ) && r == (if opcode >> 3 == 6 { Some(3u8) } else { Some(2u8) })
    } else if opcode & 0xC7 == 0x04 {
        inc_r8_post(a, b, opcode >> 3)
            && r == (if opcode >> 3 == 6 { Some(3u8) } else { Some(1u8) })
    } else if opcode & 0xC7 == 0x05 {
        dec_r8_post(a, b, opcode >> 3)
            && r == (if opcode >> 3 == 6 { Some(3u8) } else { Some(1u8) })
    } else if opcode >> 5 == 1 {
        b == with_regs(a, jr_regs(a, cc)) && r == (if cc { Some(3u8) } else { Some(2u8) })
    } else if opcode >> 6 == 1 {
        set_r8_post(a, b, (opcode >> 3) & 7, get_r8_spec(a, opcode & 7))
            && r == (if opcode & 7 == 6 || (opcode >> 3) & 7 == 6 { Some(2u8) } else { Some(1u8) })
    } else if opcode >> 6 == 2 {
        b == with_regs(a, alu_regs(a.r, (opcode >> 3) & 7, get_r8_spec(a, opcode & 7)))
            && r == (if opcode & 7 == 6 { Some(2u8) } else { Some(1u8) })
    } else if opcode >> 6 == 3 && opcode & 0xF == 0x01 {
        b == with_regs(a, pop_r16_regs(a, r16)) && r == Some(3u8)
    } else if opcode >> 6 == 3 && opcode & 0xF == 0x05 {
        push_r16_post(a, b, r16) && r == Some(4u8)
    } else if opcode & 0xE7 == 0xC0 {
        if cc {
            b == with_regs(a, ret_regs(a)) && r == Some(5u8)
        } else {
            b == a && r == Some(2u8)
        }
    } else if opcode & 0xE7 == 0xC4 {
        call_post(a, b, cc) && r == (if cc { Some(6u8) } else { Some(3u8) })
    } else if opcode & 0xE7 == 0xC2 {
        b == with_regs(a, jp_regs(a, cc)) && r == (if cc { Some(4u8) } else { Some(3u8) })
    } else if opcode & 0xC7 == 0xC7 {
        rst_post(a, b, opcode & 0x38) && r == Some(4u8)
    } else if opcode == 0xC3 {
        b == with_regs(a, jp_regs(a, true)) && r == Some(4u8)
    } else {
        // illegal opcode: nothing happens and no cycles are owed
        b == a && r is None
    }
}

impl GameBoy {
    /// Decode and execute one instruction whose opcode byte has
    /// already been fetched (PC points past it), and return its
    /// machine-cycle cost — `None` for HALT and illegal opcodes.
    #[verifier::rlimit(100)]
    pub fn fetch_decode_execute(&mut self, opcode: u8) -> (r: Option<u8>)
        requires
            old(self).wf(),
        ensures
            final(self).wf(),
            fde_post(*old(self), *final(self), opcode, r),
            old(self).flags_ok() ==> final(self).flags_ok(),
            final(self).clock == old(self).clock,
            final(self).test_mode == old(self).test_mode,
    {
        proof {
            reveal(fde_post);
            assert((opcode & 0xC7 == 0x06 ==> opcode >> 3 < 8)
                && (opcode & 0xC7 == 0x04 ==> opcode >> 3 < 8)
                && (opcode & 0xC7 == 0x05 ==> opcode >> 3 < 8)
                && (opcode >> 3) & 3 < 4
                && (opcode >> 4) & 3 < 4
                && (opcode >> 3) & 7 < 8
                && opcode & 7 < 8) by (bit_vector);
        }
        match opcode {
            0x00 => Some(1),
            0x07 => {
                self.op_rotate_a(0);
                Some(1)
            },
            0x0F => {
                self.op_rotate_a(1);
                Some(1)
            },
            0x17 => {
                self.op_rotate_a(2);
                Some(1)
            },
            0x1F => {
                self.op_rotate_a(3);
                Some(1)
            },
            0x27 => {
                self.op_daa();
                Some(1)
            },
            0x2F => {
                self.r.a = !self.r.a;
                self.set_flag_n(true);
                self.set_flag_h(true);
                Some(1)
            },
            0x37 => {
                self.set_flag_n(false);
                self.set_flag_h(false);
                self.set_flag_c(true);
                Some(1)
            },
            0x3F => {
                let c = self.get_flag_c();
                self.set_flag_n(false);
                self.set_flag_h(false);
                self.set_flag_c(c == 0);
                Some(1)
            },
            0x08 => {
                self.op_ld_u16_sp();
                Some(5)
            },
            0x10 => {
                self.state = State::Stopped;
                Some(1)
            },
            0x18 => {
                self.op_jr(true);
                Some(3)
            },
            0x76 => {
                self.state = State::Halted;
                None
            },
            0xCB => self.op_cb(),
            0xE0 => {
                self.op_ldh_u8_a();
                Some(3)
            },
            0xE8 => {
                self.op_add_sp_e();
                Some(4)
            },
            0xEA => {
                self.op_ld_u16_a();
                Some(4)
            },
            0xF0 => {
                self.op_ldh_a_u8();
                Some(3)
            },
            0xF2 => {
                let addr = crate::util::unsigned_16(0xFF, self.r.c);
                self.r.a = self.read(addr);
                Some(2)
            },
            0xF8 => {
                self.op_ld_hl_sp_e();
                Some(3)
            },
            0xF9 => {
                self.r.sp = self.get_hl();
                Some(2)
            },
            0xE2 => {
                let addr = crate::util::unsigned_16(0xFF, self.r.c);
                let ghost pre = *self;
                let v = self.r.a;
                self.write(addr, v);
                proof {
                    crate::memory::lemma_write_keeps_cpu(pre, *self, addr, v);
                }
                Some(2)
            },
            0xFA => {
                self.op_ld_a_u16();
                Some(4)
            },
            0xCD => {
                self.op_call(true);
                Some(6)
            },
            0xC9 => {
                self.op_ret();
                Some(4)
            },
            0xD9 => {
                self.ime = true;
                self.op_ret();
                Some(4)
            },
            0xE9 => {
                self.r.pc = self.get_hl();
                Some(1)
            },
            0xC6 => {
                let x = self.read_imm8();
                self.op_alu(0, x);
                Some(2)
            },
            0xCE => {
                let x = self.read_imm8();
                self.op_alu(1, x);
                Some(2)
            },
            0xD6 => {
                let x = self.read_imm8();
                self.op_alu(2, x);
                Some(2)
            },
            0xDE => {
                let x = self.read_imm8();
                self.op_alu(3, x);
                Some(2)
            },
            0xE6 => {
                let x = self.read_imm8();
                self.op_alu(4, x);
                Some(2)
            },
            0xEE => {
                let x = self.read_imm8();
                self.op_alu(5, x);
                Some(2)
            },
            0xF6 => {
                let x = self.read_imm8();
                self.op_alu(6, x);
                Some(2)
            },
            0xFE => {
                let x = self.read_imm8();
                self.op_alu(7, x);
                Some(2)
            },
            0xF3 => {
                self.ime_dispatch = None;
                self.ime = false;
                Some(1)
            },
            0xFB => {
                self.ime_dispatch = Some(2);
                Some(1)
            },
            _ => {
                let r16 = (opcode >> 4) & 3;
                if opcode & 0xCF == 0x01 {
                    self.op_ld_r16_u16(r16);
                    Some(3)
                } else if opcode & 0xCF == 0x03 {
                    self.op_inc_r16(r16);
                    Some(2)
                } else if opcode & 0xCF == 0x0B {
                    self.op_dec_r16(r16);
                    Some(2)
                } else if opcode & 0xCF == 0x09 {
                    self.op_add_hl_r16(r16);
                    Some(2)
                } else if opcode & 0xCF == 0x02 {
                    self.op_ld_r16mem_a(r16);
                    Some(2)
                } else if opcode & 0xCF == 0x0A {
                    self.op_ld_a_r16mem(r16);
                    Some(2)
                } else if opcode & 0xC7 == 0x06 {
                    self.op_ld_r8_u8(opcode >> 3);
                    if opcode >> 3 == 6 { Some(3) } else { Some(2) }
                } else if opcode & 0xC7 == 0x04 {
                    self.op_inc_r8(opcode >> 3);
                    if opcode >> 3 == 6 { Some(3) } else { Some(1) }
                } else if opcode & 0xC7 == 0x05 {
                    self.op_dec_r8(opcode >> 3);
                    if opcode >> 3 == 6 { Some(3) } else { Some(1) }
                } else if opcode >> 5 == 1 {
                    let cond = self.condition((opcode >> 3) & 3);
                    self.op_jr(cond);
                    if cond { Some(3) } else { Some(2) }
                } else if opcode >> 6 == 1 {
                    self.op_ld_r8_r8((opcode >> 3) & 7, opcode & 7);
                    if opcode & 7 == 6 || (opcode >> 3) & 7 == 6 { Some(2) } else { Some(1) }
                } else if opcode >> 6 == 2 {
                    let x = self.get_r8(opcode & 7);
                    self.op_alu((opcode >> 3) & 7, x);
                    if opcode & 7 == 6 { Some(2) } else { Some(1) }
                } else if opcode >> 6 == 3 && opcode & 0xF == 0x01 {
                    self.op_pop_r16(r16);
                    Some(3)
                } else if opcode >> 6 == 3 && opcode & 0xF == 0x05 {
                    self.op_push_r16(r16);
                    Some(4)
                } else if opcode & 0xE7 == 0xC0 {
                    let cond = self.condition((opcode >> 3) & 3);
                    if cond {
                        self.op_ret();
                        Some(5)
                    } else {
                        Some(2)
                    }
                } else if opcode & 0xE7 == 0xC4 {
                    let cond = self.condition((opcode >> 3) & 3);
                    self.op_call(cond);
                    if cond { Some(6) } else { Some(3) }
                } else if opcode & 0xE7 == 0xC2 {
                    let cond = self.condition((opcode >> 3) & 3);
                    self.op_jp_imm(cond);
                    if cond { Some(4) } else { Some(3) }
                } else if opcode & 0xC7 == 0xC7 {
                    self.op_rst(opcode & 0x38);
                    Some(4)
                } else if opcode == 0xC3 {
                    self.op_jp_imm(true);
                    Some(4)
                } else {
                    None
                }
            },
        }
    }
}

} // verus!
