//! Byte and word helpers shared by every subsystem, and the register-file
//! accessors of [`GameBoy`]: flag bits, 16-bit register pairs, and the
//! operand-group decoding tables of the SM83 instruction encoding.

use vstd::prelude::*;

use crate::gb::{with_regs, GameBoy, Registers};
use crate::memory::{read_spec, write_post};

verus! {

/// The high byte of a 16-bit word.
pub fn msb(two_bytes: u16) -> (r: u8)
    ensures
        r == spec_msb(two_bytes),
{
    (two_bytes >> 8) as u8
}

/// The low byte of a 16-bit word.
pub fn lsb(two_bytes: u16) -> (r: u8)
    ensures
        r == spec_lsb(two_bytes),
{
    (two_bytes & 0xFF) as u8
}

/// A 16-bit word assembled from its high and low bytes.
pub fn unsigned_16(msb: u8, lsb: u8) -> (r: u16)
    ensures
        r == spec_u16(msb, lsb),
{
    ((msb as u16) << 8) | (lsb as u16)
}

pub open spec fn spec_msb(w: u16) -> u8 {
    (w >> 8) as u8
}

pub open spec fn spec_lsb(w: u16) -> u8 {
    (w & 0xFF) as u8
}

pub open spec fn spec_u16(msb: u8, lsb: u8) -> u16 {
    ((msb as u16) << 8) | (lsb as u16)
}

/// Splitting a word into bytes and reassembling them gives the word back.
pub proof fn lemma_u16_split_join(w: u16)
    ensures
        spec_u16(spec_msb(w), spec_lsb(w)) == w,
{
    assert((((w >> 8) as u8 as u16) << 8) | ((w & 0xFF) as u8 as u16) == w) by (bit_vector);
}

/// The flag-register updates that occur in the core keep the low
/// nibble of F clear: every flag set or clear touches only bits 4–7,
/// and the value popped into F is masked with 0xF0 first.
pub proof fn lemma_flag_nibble(f: u8)
    ensures
        0u8 & 0x0F == 0,
        (f & 0x0F == 0) ==> (f | 0x80) & 0x0F == 0,
        (f & 0x0F == 0) ==> (f & 0x7F) & 0x0F == 0,
        (f & 0x0F == 0) ==> (f | 0x40) & 0x0F == 0,
        (f & 0x0F == 0) ==> (f & 0xBF) & 0x0F == 0,
        (f & 0x0F == 0) ==> (f | 0x20) & 0x0F == 0,
        (f & 0x0F == 0) ==> (f & 0xDF) & 0x0F == 0,
        (f & 0x0F == 0) ==> (f | 0x10) & 0x0F == 0,
        (f & 0x0F == 0) ==> (f & 0xEF) & 0x0F == 0,
        (f & 0xF0) & 0x0F == 0,
{
    assert(0u8 & 0x0F == 0
        && ((f & 0x0F == 0) ==> ((f | 0x80) & 0x0F == 0 && (f & 0x7F) & 0x0F == 0
            && (f | 0x40) & 0x0F == 0 && (f & 0xBF) & 0x0F == 0
            && (f | 0x20) & 0x0F == 0 && (f & 0xDF) & 0x0F == 0
            && (f | 0x10) & 0x0F == 0 && (f & 0xEF) & 0x0F == 0))
        && (f & 0xF0) & 0x0F == 0) by (bit_vector);
}

/// Setting or clearing Z touches only bit 7, so a clear low nibble
/// of F stays clear.
pub broadcast proof fn lemma_f_with_z_nibble(f: u8, v: bool)
    ensures
        f & 0x0F == 0 ==> (#[trigger] f_with_z(f, v)) & 0x0F == 0,
{
    assert(f & 0x0F == 0 ==> (f | 0x80) & 0x0F == 0 && (f & 0x7F) & 0x0F == 0) by (bit_vector);
}

/// Setting or clearing N touches only bit 6.
pub broadcast proof fn lemma_f_with_n_nibble(f: u8, v: bool)
    ensures
        f & 0x0F == 0 ==> (#[trigger] f_with_n(f, v)) & 0x0F == 0,
{
    assert(f & 0x0F == 0 ==> (f | 0x40) & 0x0F == 0 && (f & 0xBF) & 0x0F == 0) by (bit_vector);
}

/// Setting or clearing H touches only bit 5.
pub broadcast proof fn lemma_f_with_h_nibble(f: u8, v: bool)
    ensures
        f & 0x0F == 0 ==> (#[trigger] f_with_h(f, v)) & 0x0F == 0,
{
    assert(f & 0x0F == 0 ==> (f | 0x20) & 0x0F == 0 && (f & 0xDF) & 0x0F == 0) by (bit_vector);
}

/// Setting or clearing C touches only bit 4.
pub broadcast proof fn lemma_f_with_c_nibble(f: u8, v: bool)
    ensures
        f & 0x0F == 0 ==> (#[trigger] f_with_c(f, v)) & 0x0F == 0,
{
    assert(f & 0x0F == 0 ==> (f | 0x10) & 0x0F == 0 && (f & 0xEF) & 0x0F == 0) by (bit_vector);
}

/// A word built from two bytes gives the bytes back.
pub broadcast proof fn lemma_u16_bytes(hi: u8, lo: u8)
    ensures
        spec_msb(#[trigger] spec_u16(hi, lo)) == hi,
        spec_lsb(spec_u16(hi, lo)) == lo,
{
    assert(((((hi as u16) << 8) | (lo as u16)) >> 8) as u8 == hi
        && ((((hi as u16) << 8) | (lo as u16)) & 0xFF) as u8 == lo) by (bit_vector);
}

/// A byte masked to its lowest bit is zero or one.
pub broadcast proof fn lemma_and_one(x: u8)
    ensures
        (#[trigger] (x & 1)) <= 1,
{
    assert(x & 1 <= 1) by (bit_vector);
}

/// Masked words are bounded by their masks.
pub broadcast proof fn lemma_mask_bounds_u16(x: u16)
    ensures
        (#[trigger] (x & 0x1F)) <= 0x1F,
        (#[trigger] (x & 0x3FF)) <= 0x3FF,
        (#[trigger] (x & 0xFF)) <= 0xFF,
{
    assert((x & 0x1F) <= 0x1F && (x & 0x3FF) <= 0x3FF && (x & 0xFF) <= 0xFF) by (bit_vector);
}

/// Masking a byte to its high nibble clears the low nibble.
pub broadcast proof fn lemma_mask_high_nibble(x: u8)
    ensures
        (#[trigger] (x & 0xF0)) & 0x0F == 0,
{
    assert((x & 0xF0) & 0x0F == 0) by (bit_vector);
}

/// A vector of `n` zero bytes.
pub fn zero_vec(n: usize) -> (v: Vec<u8>)
    ensures
        v@.len() == n,
        forall|i: int| 0 <= i < n ==> v@[i] == 0u8,
{
    let mut v: Vec<u8> = Vec::new();
    while v.len() < n
        invariant
            v@.len() <= n,
            forall|i: int| 0 <= i < v@.len() ==> v@[i] == 0u8,
        decreases n - v@.len(),
    {
        v.push(0u8);
    }
    v
}

/// 8-bit modular addition.
pub open spec fn wadd8(x: u8, y: u8) -> u8 {
    vstd::wrapping::u8_specs::wrapping_add(x, y)
}

/// 8-bit modular subtraction.
pub open spec fn wsub8(x: u8, y: u8) -> u8 {
    vstd::wrapping::u8_specs::wrapping_sub(x, y)
}

/// 16-bit modular addition.
pub open spec fn wadd16(x: u16, y: u16) -> u16 {
    vstd::wrapping::u16_specs::wrapping_add(x, y)
}

/// 16-bit modular subtraction.
pub open spec fn wsub16(x: u16, y: u16) -> u16 {
    vstd::wrapping::u16_specs::wrapping_sub(x, y)
}

/// F rebuilt with all four flags, in the order the interpreter sets
/// them: Z first, C last.
pub open spec fn f_znhc(f: u8, z: bool, n: bool, h: bool, c: bool) -> u8 {
    f_with_c(f_with_h(f_with_n(f_with_z(f, z), n), h), c)
}

/// F rebuilt with Z, N and H; C keeps its value.
pub open spec fn f_znh(f: u8, z: bool, n: bool, h: bool) -> u8 {
    f_with_h(f_with_n(f_with_z(f, z), n), h)
}

/// F rebuilt with N and H; Z and C keep their values.
pub open spec fn f_nh(f: u8, n: bool, h: bool) -> u8 {
    f_with_h(f_with_n(f, n), h)
}

/// F rebuilt with N, H and C; Z keeps its value.
pub open spec fn f_nhc(f: u8, n: bool, h: bool, c: bool) -> u8 {
    f_with_c(f_with_h(f_with_n(f, n), h), c)
}

/// The four SM83 condition codes: NZ, Z, NC, C.
pub open spec fn cc_holds(r: Registers, cc: u8) -> bool {
    if cc == 0 { spec_flag_z(r) == 0 }
    else if cc == 1 { spec_flag_z(r) != 0 }
    else if cc == 2 { spec_flag_c(r) == 0 }
    else { spec_flag_c(r) != 0 }
}

/// The BC register pair.
pub open spec fn spec_bc(r: Registers) -> u16 {
    spec_u16(r.b, r.c)
}

/// The DE register pair.
pub open spec fn spec_de(r: Registers) -> u16 {
    spec_u16(r.d, r.e)
}

/// The HL register pair.
pub open spec fn spec_hl(r: Registers) -> u16 {
    spec_u16(r.h, r.l)
}

/// The AF register pair.
pub open spec fn spec_af(r: Registers) -> u16 {
    spec_u16(r.a, r.f)
}

/// The register file with BC replaced.
pub open spec fn regs_with_bc(r: Registers, v: u16) -> Registers {
    Registers { b: spec_msb(v), c: spec_lsb(v), ..r }
}

/// The register file with DE replaced.
pub open spec fn regs_with_de(r: Registers, v: u16) -> Registers {
    Registers { d: spec_msb(v), e: spec_lsb(v), ..r }
}

/// The register file with HL replaced.
pub open spec fn regs_with_hl(r: Registers, v: u16) -> Registers {
    Registers { h: spec_msb(v), l: spec_lsb(v), ..r }
}

/// The register file with AF replaced; F takes the low byte unmasked.
pub open spec fn regs_with_af(r: Registers, v: u16) -> Registers {
    Registers { a: spec_msb(v), f: spec_lsb(v), ..r }
}

/// The flag register with the Z bit (bit 7) set or cleared.
pub open spec fn f_with_z(f: u8, value: bool) -> u8 {
    if value { f | 0x80 } else { f & 0x7F }
}

/// The flag register with the N bit (bit 6) set or cleared.
pub open spec fn f_with_n(f: u8, value: bool) -> u8 {
    if value { f | 0x40 } else { f & 0xBF }
}

/// The flag register with the H bit (bit 5) set or cleared.
pub open spec fn f_with_h(f: u8, value: bool) -> u8 {
    if value { f | 0x20 } else { f & 0xDF }
}

/// The flag register with the C bit (bit 4) set or cleared.
pub open spec fn f_with_c(f: u8, value: bool) -> u8 {
    if value { f | 0x10 } else { f & 0xEF }
}

/// The C flag read back as 0 or 1.
pub open spec fn spec_flag_c(r: Registers) -> u8 {
    if r.f & 0x10 == 0 { 0u8 } else { 1u8 }
}

/// The Z flag read back as 0 or 1.
pub open spec fn spec_flag_z(r: Registers) -> u8 {
    if r.f & 0x80 == 0 { 0u8 } else { 1u8 }
}

/// The N flag read back as 0 or 1.
pub open spec fn spec_flag_n(r: Registers) -> u8 {
    if r.f & 0x40 == 0 { 0u8 } else { 1u8 }
}

/// The H flag read back as 0 or 1.
pub open spec fn spec_flag_h(r: Registers) -> u8 {
    if r.f & 0x20 == 0 { 0u8 } else { 1u8 }
}

/// What reading 8-bit operand `value & 7` yields: B, C, D, E, H, L,
/// the byte at (HL), or A.
pub open spec fn get_r8_spec(g: GameBoy, value: u8) -> u8 {
    let idx = value & 0b111;
    if idx == 0 { g.r.b }
    else if idx == 1 { g.r.c }
    else if idx == 2 { g.r.d }
    else if idx == 3 { g.r.e }
    else if idx == 4 { g.r.h }
    else if idx == 5 { g.r.l }
    else if idx == 6 { read_spec(g, spec_hl(g.r)) }
    else { g.r.a }
}

/// Full effect of writing 8-bit operand `r8`: a register store, or a
/// bus write through HL when `r8` is 6; indices above 7 do nothing.
pub open spec fn set_r8_post(a: GameBoy, b: GameBoy, r8: u8, data: u8) -> bool {
    if r8 == 0 { b == with_regs(a, Registers { b: data, ..a.r }) }
    else if r8 == 1 { b == with_regs(a, Registers { c: data, ..a.r }) }
    else if r8 == 2 { b == with_regs(a, Registers { d: data, ..a.r }) }
    else if r8 == 3 { b == with_regs(a, Registers { e: data, ..a.r }) }
    else if r8 == 4 { b == with_regs(a, Registers { h: data, ..a.r }) }
    else if r8 == 5 { b == with_regs(a, Registers { l: data, ..a.r }) }
    else if r8 == 6 { write_post(a, b, spec_hl(a.r), data) }
    else if r8 == 7 { b == with_regs(a, Registers { a: data, ..a.r }) }
    else { b == a }
}

/// What reading group-1 16-bit operand `r16` yields: BC, DE, HL or SP.
pub open spec fn get_r16_group_1_spec(r: Registers, r16: u8) -> u16 {
    if r16 == 0 { spec_bc(r) }
    else if r16 == 1 { spec_de(r) }
    else if r16 == 2 { spec_hl(r) }
    else { r.sp }
}

/// What reading group-3 16-bit operand `r16` yields: BC, DE, HL or AF.
pub open spec fn get_r16_group_3_spec(r: Registers, r16: u8) -> u16 {
    if r16 == 0 { spec_bc(r) }
    else if r16 == 1 { spec_de(r) }
    else if r16 == 2 { spec_hl(r) }
    else { spec_af(r) }
}

/// The register file after storing to group-1 operand `r16`.
pub open spec fn set_r16_group_1_regs(r: Registers, r16: u8, value: u16) -> Registers {
    if r16 == 0 { regs_with_bc(r, value) }
    else if r16 == 1 { regs_with_de(r, value) }
    else if r16 == 2 { regs_with_hl(r, value) }
    else { Registers { sp: value, ..r } }
}

/// The register file after storing to group-3 operand `r16`.
pub open spec fn set_r16_group_3_regs(r: Registers, r16: u8, value: u16) -> Registers {
    if r16 == 0 { regs_with_bc(r, value) }
    else if r16 == 1 { regs_with_de(r, value) }
    else if r16 == 2 { regs_with_hl(r, value) }
    else { regs_with_af(r, value) }
}

/// What reading group-2 16-bit operand `r16` yields, together with the
/// register file afterwards: BC, DE, HL with post-increment, or HL
/// with post-decrement (both modular).
pub open spec fn get_r16_group_2_spec(r: Registers, r16: u8) -> (u16, Registers) {
    if r16 == 0 { (spec_bc(r), r) }
    else if r16 == 1 { (spec_de(r), r) }
    else if r16 == 2 {
        (spec_hl(r), regs_with_hl(r, vstd::wrapping::u16_specs::wrapping_add(spec_hl(r), 1)))
    } else {
        (spec_hl(r), regs_with_hl(r, vstd::wrapping::u16_specs::wrapping_sub(spec_hl(r), 1)))
    }
}

impl GameBoy {
    /// Set or clear the Z flag.
    pub fn set_flag_z(&mut self, value: bool)
        ensures
            *final(self) == with_regs(*old(self), (Registers { f: f_with_z(old(self).r.f, value), ..old(self).r })),
    {
        match value {
            true => self.r.f = self.r.f | 0x80,
            false => self.r.f = self.r.f & 0x7F,
        }
    }

    /// Set or clear the N flag.
    pub fn set_flag_n(&mut self, value: bool)
        ensures
            *final(self) == with_regs(*old(self), (Registers { f: f_with_n(old(self).r.f, value), ..old(self).r })),
    {
        match value {
            true => self.r.f = self.r.f | 0x40,
            false => self.r.f = self.r.f & 0xBF,
        }
    }

    /// Set or clear the H flag.
    pub fn set_flag_h(&mut self, value: bool)
        ensures
            *final(self) == with_regs(*old(self), (Registers { f: f_with_h(old(self).r.f, value), ..old(self).r })),
    {
        match value {
            true => self.r.f = self.r.f | 0x20,
            false => self.r.f = self.r.f & 0xDF,
        }
    }

    /// Set or clear the C flag.
    pub fn set_flag_c(&mut self, value: bool)
        ensures
            *final(self) == with_regs(*old(self), (Registers { f: f_with_c(old(self).r.f, value), ..old(self).r })),
    {
        match value {
            true => self.r.f = self.r.f | 0x10,
            false => self.r.f = self.r.f & 0xEF,
        }
    }

    /// Read the C flag as 0 or 1.
    pub fn get_flag_c(&self) -> (r: u8)
        ensures
            r == spec_flag_c(self.r),
    {
        if self.r.f & 0x10 == 0 { 0 } else { 1 }
    }

    /// Read the Z flag as 0 or 1.
    pub fn get_flag_z(&self) -> (r: u8)
        ensures
            r == spec_flag_z(self.r),
    {
        if self.r.f & 0x80 == 0 { 0 } else { 1 }
    }

    /// Read the N flag as 0 or 1.
    pub fn get_flag_n(&self) -> (r: u8)
        ensures
            r == spec_flag_n(self.r),
    {
        if self.r.f & 0x40 == 0 { 0 } else { 1 }
    }

    /// Read the H flag as 0 or 1.
    pub fn get_flag_h(&self) -> (r: u8)
        ensures
            r == spec_flag_h(self.r),
    {
        if self.r.f & 0x20 == 0 { 0 } else { 1 }
    }

    /// Read the HL pair.
    pub fn get_hl(&self) -> (r: u16)
        ensures
            r == spec_hl(self.r),
    {
        unsigned_16(self.r.h, self.r.l)
    }

    /// Read the AF pair.
    pub fn get_af(&self) -> (r: u16)
        ensures
            r == spec_af(self.r),
    {
        unsigned_16(self.r.a, self.r.f)
    }

    /// Store to the HL pair.
    pub fn set_hl(&mut self, value: u16)
        ensures
            *final(self) == with_regs(*old(self), regs_with_hl(old(self).r, value)),
    {
        self.r.h = (value >> 8) as u8;
        self.r.l = (value & 0xFF) as u8;
    }

    /// Read the BC pair.
    pub fn get_bc(&self) -> (r: u16)
        ensures
            r == spec_bc(self.r),
    {
        unsigned_16(self.r.b, self.r.c)
    }

    /// Store to the BC pair.
    pub fn set_bc(&mut self, value: u16)
        ensures
            *final(self) == with_regs(*old(self), regs_with_bc(old(self).r, value)),
    {
        self.r.b = (value >> 8) as u8;
        self.r.c = (value & 0xFF) as u8;
    }

    /// Read the DE pair.
    pub fn get_de(&self) -> (r: u16)
        ensures
            r == spec_de(self.r),
    {
        unsigned_16(self.r.d, self.r.e)
    }

    /// Store to the DE pair.
    pub fn set_de(&mut self, value: u16)
        ensures
            *final(self) == with_regs(*old(self), regs_with_de(old(self).r, value)),
    {
        self.r.d = (value >> 8) as u8;
        self.r.e = (value & 0xFF) as u8;
    }

    /// Store to the AF pair; F takes the low byte as it is.
    pub fn set_af(&mut self, value: u16)
        ensures
            *final(self) == with_regs(*old(self), regs_with_af(old(self).r, value)),
    {
        self.r.a = (value >> 8) as u8;
        self.r.f = (value & 0xFF) as u8;
    }

    /// Store to 8-bit operand `r8`; operand 6 writes through HL.
    pub fn set_r8(&mut self, r8: u8, data: u8)
        requires
            old(self).wf(),
        ensures
            final(self).wf(),
            set_r8_post(*old(self), *final(self), r8, data),
    {
        match r8 {
            0 => self.r.b = data,
            1 => self.r.c = data,
            2 => self.r.d = data,
            3 => self.r.e = data,
            4 => self.r.h = data,
            5 => self.r.l = data,
            6 => {
                let hl = self.get_hl();
                self.write(hl, data);
            },
            7 => self.r.a = data,
            _ => (),
        }
    }

    /// Read 8-bit operand `value & 7`; operand 6 reads through HL.
    pub fn get_r8(&self, value: u8) -> (r: u8)
        requires
            self.wf(),
        ensures
            r == get_r8_spec(*self, value),
    {
        match value & 0b111 {
            0 => self.r.b,
            1 => self.r.c,
            2 => self.r.d,
            3 => self.r.e,
            4 => self.r.h,
            5 => self.r.l,
            6 => {
                let hl = self.get_hl();
                self.read(hl)
            },
            _ => self.r.a,
        }
    }

    /// Read group-2 operand `r16`: BC, DE, HL+ or HL− (the last two
    /// post-increment or post-decrement HL, modulo 16 bits).
    pub fn get_r16_group_2(&mut self, r16: u8) -> (r: u16)
        requires
            r16 < 4,
        ensures
            r == get_r16_group_2_spec(old(self).r, r16).0,
            *final(self) == with_regs(*old(self), get_r16_group_2_spec(old(self).r, r16).1),
    {
        match r16 {
            0 => self.get_bc(),
            1 => self.get_de(),
            2 => {
                let hl = self.get_hl();
                self.set_hl(hl.wrapping_add(1));
                hl
            },
            _ => {
                let hl = self.get_hl();
                self.set_hl(hl.wrapping_sub(1));
                hl
            },
        }
    }

    /// Read group-1 operand `r16`: BC, DE, HL or SP.
    pub fn get_r16_group_1(&self, r16: u8) -> (r: u16)
        requires
            r16 < 4,
        ensures
            r == get_r16_group_1_spec(self.r, r16),
    {
        match r16 {
            0 => self.get_bc(),
            1 => self.get_de(),
            2 => self.get_hl(),
            _ => self.r.sp,
        }
    }

    /// Read group-3 operand `r16`: BC, DE, HL or AF.
    pub fn get_r16_group_3(&self, r16: u8) -> (r: u16)
        requires
            r16 < 4,
        ensures
            r == get_r16_group_3_spec(self.r, r16),
    {
        match r16 {
            0 => self.get_bc(),
            1 => self.get_de(),
            2 => self.get_hl(),
            _ => self.get_af(),
        }
    }

    /// Store to group-1 operand `r16`: BC, DE, HL or SP.
    pub fn set_r16_group_1(&mut self, r16: u8, value: u16)
        requires
            r16 < 4,
        ensures
            *final(self) == with_regs(*old(self), set_r16_group_1_regs(old(self).r, r16, value)),
    {
        match r16 {
            0 => self.set_bc(value),
            1 => self.set_de(value),
            2 => self.set_hl(value),
            _ => self.r.sp = value,
        }
    }

    /// Store to group-3 operand `r16`: BC, DE, HL or AF.
    pub fn set_r16_group_3(&mut self, r16: u8, value: u16)
        requires
            r16 < 4,
        ensures
            *final(self) == with_regs(*old(self), set_r16_group_3_regs(old(self).r, r16, value)),
    {
        match r16 {
            0 => self.set_bc(value),
            1 => self.set_de(value),
            2 => self.set_hl(value),
            _ => self.set_af(value),
        }
    }

    /// Map a 2-bit background colour index through BGP.
    pub fn map_background_palette(&self, data: u8) -> (r: u8)
        requires
            data <= 3,
        ensures
            r == (self.r.bg_pal >> (data * 2)) & 0b11,
    {
        (self.r.bg_pal >> (data * 2)) & 0b11
    }

    /// Map a 2-bit sprite colour index through OBP0 or OBP1.
    pub fn map_sprite_palette(&self, palette: u8, colour: u8) -> (r: u8)
        requires
            self.wf(),
            palette <= 1,
            colour <= 3,
        ensures
            r == (read_spec(*self, (0xFF48 + palette) as u16) >> (colour * 2)) & 0b11,
    {
        (self.read(0xFF48 + palette as u16) >> (colour * 2)) & 0b11
    }

    /// Read byte `offset` of the OAM slot at `oam_base`.
    pub fn oam(&self, offset: u8) -> (r: u8)
        requires
            self.wf(),
            self.oam_base + offset <= 0xFFFF,
        ensures
            r == read_spec(*self, (self.oam_base + offset) as u16),
    {
        self.read(self.oam_base + offset as u16)
    }
}

} // verus!
