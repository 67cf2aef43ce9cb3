//! Machine-wide laws, proved from the step contracts of the
//! subsystems: the TIMA reload window, the interrupt dispatch
//! sequence, and the stack and register round trips.

use vstd::prelude::*;

use crate::fde::{call_post, push16_post, pop_r16_regs, push_r16_post, ret_regs};
use crate::gb::{
    interrupt_mask, isr_step_post, pending_index, timer_step, GameBoy, InterruptType, IsrState,
    Registers, State, Timer,
};
use crate::memory::{read_spec, write_post, MappingType};
use crate::util::{
    get_r16_group_1_spec, get_r16_group_3_spec, lemma_u16_split_join, set_r16_group_1_regs,
    spec_lsb, spec_msb, spec_u16, wadd16, wsub16,
};

verus! {

/// A TIMA overflow is followed, four dot-clocks later, by the reload:
/// TIMA takes TMA and the Timer interrupt is requested.  The law
/// speaks of the timer stepping alone; a software write to TIMA in
/// between closes the window instead (the bus write clears it).
pub proof fn lemma_timer_reload(r0: Registers, t0: Timer)
    requires
        t0.wait_reload == 1,
    ensures
        ({
            let s1 = timer_step(r0, t0);
            let s2 = timer_step(s1.0, s1.1);
            let s3 = timer_step(s2.0, s2.1);
            let s4 = timer_step(s3.0, s3.1);
            &&& s4.0.tima == r0.tma
            &&& s4.0.iflag & interrupt_mask(InterruptType::Timer) != 0
            &&& s4.1.wait_reload == 0
        }),
{
    let iflag3 = timer_step(timer_step(timer_step(timer_step(r0, t0).0, timer_step(r0, t0).1).0,
        timer_step(timer_step(r0, t0).0, timer_step(r0, t0).1).1).0, timer_step(timer_step(
        timer_step(r0, t0).0, timer_step(r0, t0).1).0, timer_step(timer_step(r0, t0).0,
        timer_step(r0, t0).1).1).1).0.iflag;
    let f3 = timer_step(timer_step(timer_step(r0, t0).0, timer_step(r0, t0).1).0, timer_step(
        timer_step(r0, t0).0, timer_step(r0, t0).1).1).0.iflag;
    assert(f3 | 4u8 == iflag3);
    assert((f3 | 4u8) & 4u8 != 0) by (bit_vector);
}

/// An address whose bus write leaves the pending-interrupt sources
/// alone and stores into its own cell and no other: everything
/// except the IF and IE registers, the OAM DMA trigger, and the
/// echo region (which mirrors its store into work RAM).
pub open spec fn undisturbed_stack_cell(addr: u16) -> bool {
    addr != 0xFF0F && addr != 0xFFFF && addr != 0xFF46 && !(0xE000 <= addr <= 0xFDFF)
}

/// A pending source stays pending when the coincidence check can
/// only raise further bits.
proof fn lemma_pending_monotone(ie: u8, iflag: u8, extra: u8)
    requires
        (ie & iflag) & 0x1F != 0,
    ensures
        (ie & (iflag | extra)) & 0x1F != 0,
{
    assert((ie & iflag) & 0x1F != 0 ==> (ie & (iflag | extra)) & 0x1F != 0) by (bit_vector);
}

/// The interrupt dispatch sequence, run from its first dead cycle
/// with a source pending, leaves exactly the two bytes of PC on the
/// stack and lands PC on one of the five fixed vectors, with IME off
/// and the CPU fetching again — provided the two stack cells are not
/// the IF/IE registers or the DMA trigger, so that the pushes cannot
/// retract the pending source.
#[verifier::rlimit(100)]
pub proof fn lemma_isr_dispatch(g0: GameBoy, g1: GameBoy, g2: GameBoy, g3: GameBoy, g4: GameBoy, g5: GameBoy)
    requires
        g0.wf(),
        g0.isr_state == IsrState::Wait1,
        (g0.r.ie & g0.r.iflag) & 0x1F != 0,
        undisturbed_stack_cell(wsub16(g0.r.sp, 1)),
        undisturbed_stack_cell(wsub16(g0.r.sp, 2)),
        isr_step_post(g0, g1),
        isr_step_post(g1, g2),
        isr_step_post(g2, g3),
        isr_step_post(g3, g4),
        isr_step_post(g4, g5),
    ensures
        g5.r.sp == wsub16(g0.r.sp, 2),
        g5.memory.main@.len() == g0.memory.main@.len(),
        g5.memory.main@[wsub16(g0.r.sp, 1) as int] == spec_msb(g0.r.pc),
        g5.memory.main@[wsub16(g0.r.sp, 2) as int] == spec_lsb(g0.r.pc),
        g5.r.pc == 0x40 || g5.r.pc == 0x48 || g5.r.pc == 0x50 || g5.r.pc == 0x58
            || g5.r.pc == 0x60,
        !g5.ime,
        g5.state == State::Execute,
        g5.cycles_to_idle == Some(0u8),
        g5.isr_state == IsrState::Wait1,
{
    // the two dead cycles move only the sub-state and the clock
    assert(g2.r == g0.r && g2.memory == g0.memory && g2.isr_state == IsrState::PCPush1);
    // first push: SP drops by one and the high byte lands
    let a1 = wsub16(g0.r.sp, 1);
    let pre3 = crate::gb::isr_push_mid(g2, IsrState::PCPush2);
    assert(write_post(pre3, g3, a1, spec_msb(g2.r.pc)));
    crate::memory::lemma_write_keeps_cpu(pre3, g3, a1, spec_msb(g2.r.pc));
    assert(g3.memory.main@ == g2.memory.main@.update(a1 as int, spec_msb(g2.r.pc)));
    assert(g3.r.sp == a1 && g3.r.pc == g0.r.pc && g3.isr_state == IsrState::PCPush2);
    assert((g3.r.ie & g3.r.iflag) & 0x1F != 0) by {
        if g3.r.iflag != g2.r.iflag {
            lemma_pending_monotone(g2.r.ie, g2.r.iflag, 2);
        }
    }
    // second push: SP drops again and the low byte lands
    let a2 = wsub16(g0.r.sp, 2);
    assert(wsub16(g3.r.sp, 1) == a2);
    let pre4 = crate::gb::isr_push_mid(g3, IsrState::Jump);
    assert(write_post(pre4, g4, a2, spec_lsb(g3.r.pc)));
    crate::memory::lemma_write_keeps_cpu(pre4, g4, a2, spec_lsb(g3.r.pc));
    assert(g4.memory.main@ == g3.memory.main@.update(a2 as int, spec_lsb(g3.r.pc)));
    assert(a1 != a2) by {
        let sp = g0.r.sp;
        assert(wsub16(sp, 1) != wsub16(sp, 2));
    }
    assert((g4.r.ie & g4.r.iflag) & 0x1F != 0) by {
        if g4.r.iflag != g3.r.iflag {
            lemma_pending_monotone(g3.r.ie, g3.r.iflag, 2);
        }
    }
    // the jump: a source is still pending, so PC lands on its vector
    assert(g4.isr_state == IsrState::Jump);
    let masked = g4.r.ie & g4.r.iflag;
    assert(masked & 0x1F != 0 ==> (masked & 1 != 0 || masked & 2 != 0 || masked & 4 != 0
        || masked & 8 != 0 || masked & 16 != 0)) by (bit_vector);
    assert(pending_index(masked) is Some);
    assert(g5 == crate::gb::isr_jump_apply(g4));
    assert(g5.memory == g4.memory);
}

/// PUSH then POP through the same group-3 operand restores the
/// 16-bit value — with AF, the low nibble of F reads back as zero —
/// whenever the two stack cells are backed by plain RAM.
pub proof fn lemma_push_pop_roundtrip(g0: GameBoy, g1: GameBoy, r16: u8)
    requires
        g0.wf(),
        r16 < 4,
        g0.memory.mapping_type == MappingType::Flat,
        undisturbed_stack_cell(wsub16(g0.r.sp, 1)),
        undisturbed_stack_cell(wsub16(g0.r.sp, 2)),
        !is_special_io(wsub16(g0.r.sp, 1)),
        !is_special_io(wsub16(g0.r.sp, 2)),
        push_r16_post(g0, g1, r16),
    ensures
        r16 < 3 ==> get_r16_group_3_spec(pop_r16_regs(g1, r16), r16)
            == get_r16_group_3_spec(g0.r, r16),
        r16 == 3 ==> get_r16_group_3_spec(pop_r16_regs(g1, r16), r16)
            == (get_r16_group_3_spec(g0.r, r16) & 0xFFF0),
        pop_r16_regs(g1, r16).sp == g0.r.sp,
{
    let v = get_r16_group_3_spec(g0.r, r16);
    let mask: u8 = if r16 == 3 { 0xF0 } else { 0xFF };
    let hi = spec_msb(v);
    let lo = spec_lsb(v) & mask;
    let a1 = wsub16(g0.r.sp, 1);
    let a2 = wsub16(g0.r.sp, 2);
    let m = choose|m: GameBoy|
        write_post(GameBoy { r: Registers { sp: a1, ..g0.r }, ..g0 }, m, a1, hi)
        && write_post(GameBoy { r: Registers { sp: a2, ..m.r }, ..m }, g1, a2, lo);
    crate::memory::lemma_write_keeps_cpu(
        GameBoy { r: Registers { sp: a1, ..g0.r }, ..g0 }, m, a1, hi);
    assert(m.memory.main@ == g0.memory.main@.update(a1 as int, hi));
    crate::memory::lemma_write_keeps_cpu(
        GameBoy { r: Registers { sp: a2, ..m.r }, ..m }, g1, a2, lo);
    assert(g1.memory.main@ == m.memory.main@.update(a2 as int, lo));
    assert(a1 != a2);
    assert(g1.r.sp == a2);
    assert(g1.memory.mapping_type == MappingType::Flat);
    // reading the two cells back through the bus gives the pushed bytes
    assert(read_spec(g1, a2) == lo);
    assert(wadd16(a2, 1) == a1);
    assert(read_spec(g1, a1) == hi);
    assert(wadd16(a2, 2) == g0.r.sp);
    let x = spec_lsb(v);
    assert(((x & 0xFF) & 0xFF) == x & 0xFF && (x & 0xFF) == x
        && ((x & 0xF0) & 0xF0) == (x & 0xF0)) by (bit_vector);
    crate::util::lemma_u16_bytes(hi, lo & mask);
    lemma_u16_split_join(v);
    if r16 == 3 {
        assert(spec_u16(spec_msb(v), spec_lsb(v) & 0xF0) == (v & 0xFFF0)) by {
            let w = v;
            assert(((((w >> 8) as u8) as u16) << 8) | ((((w & 0xFF) as u8) & 0xF0) as u16)
                == (w & 0xFFF0)) by (bit_vector);
        }
    }
}

/// Loading a group-1 16-bit register pair and reading it back gives
/// the loaded word.
pub proof fn lemma_ld_r16_roundtrip(r: Registers, r16: u8, nn: u16)
    requires
        r16 < 4,
    ensures
        get_r16_group_1_spec(set_r16_group_1_regs(r, r16, nn), r16) == nn,
{
    crate::util::lemma_u16_bytes(spec_msb(nn), spec_lsb(nn));
    lemma_u16_split_join(nn);
}

/// After CALL pushes the return address, RET (and so RETI, which
/// additionally raises IME) restores PC to the instruction after the
/// immediate word and SP to its value before the CALL — whenever the
/// two stack cells are backed by plain RAM.
pub proof fn lemma_call_ret_roundtrip(g0: GameBoy, g1: GameBoy)
    requires
        g0.wf(),
        g0.memory.mapping_type == MappingType::Flat,
        undisturbed_stack_cell(wsub16(g0.r.sp, 1)),
        undisturbed_stack_cell(wsub16(g0.r.sp, 2)),
        !is_special_io(wsub16(g0.r.sp, 1)),
        !is_special_io(wsub16(g0.r.sp, 2)),
        call_post(g0, g1, true),
    ensures
        ret_regs(g1).pc == wadd16(g0.r.pc, 2),
        ret_regs(g1).sp == g0.r.sp,
{
    let ra = wadd16(g0.r.pc, 2);
    let hi = spec_msb(ra);
    let lo = spec_lsb(ra);
    let a0 = crate::gb::with_regs(g0, Registers { pc: ra, ..g0.r });
    let mcall = choose|mc: GameBoy|
        push16_post(a0, mc, spec_msb(a0.r.pc), spec_lsb(a0.r.pc))
        && g1 == crate::gb::with_regs(mc, Registers { pc: crate::fde::imm16(g0), ..mc.r });
    let a1 = wsub16(g0.r.sp, 1);
    let a2 = wsub16(g0.r.sp, 2);
    let m = choose|m: GameBoy|
        write_post(GameBoy { r: Registers { sp: a1, ..a0.r }, ..a0 }, m, a1, hi)
        && write_post(GameBoy { r: Registers { sp: a2, ..m.r }, ..m }, mcall, a2, lo);
    crate::memory::lemma_write_keeps_cpu(
        GameBoy { r: Registers { sp: a1, ..a0.r }, ..a0 }, m, a1, hi);
    crate::memory::lemma_write_keeps_cpu(
        GameBoy { r: Registers { sp: a2, ..m.r }, ..m }, mcall, a2, lo);
    assert(mcall.memory.main@ == g0.memory.main@.update(a1 as int, hi).update(a2 as int, lo));
    assert(a1 != a2);
    assert(g1.r.sp == a2 && g1.memory == mcall.memory);
    assert(read_spec(g1, a2) == lo);
    assert(wadd16(a2, 1) == a1);
    assert(read_spec(g1, a1) == hi);
    assert(wadd16(a2, 2) == g0.r.sp);
    crate::util::lemma_u16_bytes(hi, lo);
    lemma_u16_split_join(ra);
}

/// The bus addresses dispatched to register-file cells rather than
/// to the backing array.
pub open spec fn is_special_io(addr: u16) -> bool {
    ||| addr == 0xFF00 ||| addr == 0xFF04 ||| addr == 0xFF05 ||| addr == 0xFF06
    ||| addr == 0xFF07 ||| addr == 0xFF40 ||| addr == 0xFF41 ||| addr == 0xFF42
    ||| addr == 0xFF43 ||| addr == 0xFF44 ||| addr == 0xFF45 ||| addr == 0xFF47
    ||| addr == 0xFF4A ||| addr == 0xFF4B ||| addr == 0xFF50 ||| addr == 0xFF0F
    ||| addr == 0xFFFF ||| addr == 0xFF46
}

} // verus!
