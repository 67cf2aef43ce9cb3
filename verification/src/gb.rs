//! The emulation core: the shared register file, the aggregate that owns
//! every subsystem, the reset state, and the per-cycle drivers — the
//! interrupt controller's multi-cycle service sequence, the hardware
//! timer, the joypad latch, and the `tick` entry point itself.

use vstd::prelude::*;

use crate::log::{LogLevel, Logger};
use crate::mbc::{mbc_reset, CartridgeType, MBC};
use crate::memory::{MappedRAM, MappingType, GB_RAM_SIZE, GB_ROM_SIZE};
use crate::util::zero_vec;

verus! {

/// Number of pixels in one frame buffer: 160 columns by 144 lines.
pub const DISPLAY_SIZE: usize = 23040;

/// The CPU register file together with the memory-mapped hardware
/// registers that the I/O region dispatches to.
#[derive(Clone, Copy, Debug)]
pub struct Registers {
    pub a: u8,
    pub f: u8,
    pub b: u8,
    pub c: u8,
    pub d: u8,
    pub e: u8,
    pub h: u8,
    pub l: u8,
    pub sp: u16,
    pub pc: u16,
    pub tima: u8,
    pub tma: u8,
    pub tac: u8,
    pub div_16: u16,
    pub ly: u8,
    pub lcdc: u8,
    pub wy: u8,
    pub wx: u8,
    pub scy: u8,
    pub scx: u8,
    pub bg_pal: u8,
    pub ie: u8,
    pub iflag: u8,
    pub lyc: u8,
    pub stat: u8,
    pub joypad: u8,
    pub bank: u8,
}

/// One entry of the sprite buffer built during OAM scan.  `x` and `y`
/// are screen coordinates after the hardware bias (x − 8, y − 16).
#[derive(Clone, Copy, Debug)]
pub struct Sprite {
    pub size_y: u8,
    pub x: i16,
    pub y: i16,
    pub x_flip: u8,
    pub y_flip: u8,
    pub pal: u8,
    pub priority: u8,
    pub tile_num: u8,
}

/// What the CPU is doing with the current machine cycle.
#[derive(Clone, Copy, Debug, PartialEq, Eq, Structural)]
pub enum State {
    Execute,
    Halted,
    Stopped,
    InterruptHandler,
    DmaTransfer,
}

/// Sub-state of the five-cycle interrupt service sequence.
#[derive(Clone, Copy, Debug, PartialEq, Eq, Structural)]
pub enum IsrState {
    Wait1,
    Wait2,
    PCPush1,
    PCPush2,
    Jump,
}

/// The five interrupt sources, in priority order, lowest bit first.
#[derive(Clone, Copy, Debug, PartialEq, Eq, Structural)]
pub enum InterruptType {
    VBlank,
    LCD,
    Timer,
    Serial,
    Joypad,
}

/// The IF/IE bit that belongs to an interrupt source.
pub open spec fn interrupt_mask(t: InterruptType) -> u8 {
    match t {
        InterruptType::VBlank => 1u8,
        InterruptType::LCD => 2u8,
        InterruptType::Timer => 4u8,
        InterruptType::Serial => 8u8,
        InterruptType::Joypad => 16u8,
    }
}

/// Timer-internal state: the previous edge-detector output and the
/// dot-clock countdown of the TIMA reload window.
#[derive(Clone, Copy, Debug)]
pub struct Timer {
    pub prev_and_result: u8,
    pub wait_reload: i32,
}

/// The whole machine: register file, bus, and per-subsystem state,
/// advanced one machine cycle per [`GameBoy::tick`].
pub struct GameBoy {
    /// Machine cycles elapsed since reset.
    pub clock: u128,
    pub r: Registers,
    /// `Some(n)`: the current instruction still occupies `n` further
    /// cycles before the next fetch.  `None`: no further work (halted
    /// by an illegal instruction).
    pub cycles_to_idle: Option<u8>,
    pub memory: MappedRAM,
    pub mbc: MBC,
    pub ime: bool,
    /// Countdown of the delayed interrupt enable scheduled by EI.
    pub ime_dispatch: Option<u8>,
    pub displaybuf_0: Vec<u8>,
    pub displaybuf_1: Vec<u8>,
    /// Which of the two frame buffers the renderer draws into (0 or 1).
    pub backbuf_id: u8,
    pub logger: Logger,
    pub isr_state: IsrState,
    /// Suppresses the renderer, for per-instruction unit tests.
    pub test_mode: bool,
    /// Active-low pressed-key bits: Start, Select, B, A.
    pub keys_ssba: u8,
    /// Active-low pressed-key bits: Down, Up, Left, Right.
    pub keys_dulr: u8,
    /// Base address of the OAM slot the sprite scan is looking at.
    pub oam_base: u16,
    pub state: State,
    pub timer: Timer,
    pub dma_transfer_bytes_copied: u8,
    /// Source page of the most recent OAM DMA request.
    pub dma_base: u16,
    /// Lines of the window drawn so far in the current frame.
    pub window_line_counter: u8,
}

/// The register file at reset: every register zero.
pub open spec fn regs_zero() -> Registers {
    Registers {
        a: 0, f: 0, b: 0, c: 0, d: 0, e: 0, h: 0, l: 0,
        sp: 0, pc: 0,
        tima: 0, tma: 0, tac: 0, div_16: 0,
        ly: 0, lcdc: 0, wy: 0, wx: 0, scy: 0, scx: 0, bg_pal: 0,
        ie: 0, iflag: 0, lyc: 0, stat: 0, joypad: 0, bank: 0,
    }
}

/// The machine `g` with its register file replaced by `r`.
pub open spec fn with_regs(g: GameBoy, r: Registers) -> GameBoy {
    GameBoy { r, ..g }
}

impl GameBoy {
    /// Structural well-formedness: buffer sizes fixed by the hardware,
    /// the back-buffer selector a valid index, and the timer's reload
    /// countdown inside its window.
    pub open spec fn wf(self) -> bool {
        &&& self.memory.main@.len() == GB_RAM_SIZE
        &&& self.memory.boot_rom@.len() == GB_ROM_SIZE
        &&& self.displaybuf_0@.len() == DISPLAY_SIZE
        &&& self.displaybuf_1@.len() == DISPLAY_SIZE
        &&& self.backbuf_id < 2
        &&& 0 <= self.timer.wait_reload <= 4
    }

    /// The flag register keeps its low nibble clear.
    pub open spec fn flags_ok(self) -> bool {
        self.r.f & 0x0F == 0
    }
}

/// A fresh machine: registers zero, memory zero, display dark, joypad
/// released, interrupts off, CPU ready to fetch at address zero.
pub fn init() -> (gb: GameBoy)
    ensures
        gb.wf(),
        gb.flags_ok(),
        gb.r == regs_zero(),
        gb.clock == 0,
        gb.state == State::Execute,
        gb.isr_state == IsrState::Wait1,
        gb.cycles_to_idle == Some(0u8),
        !gb.ime,
        gb.ime_dispatch is None,
        !gb.test_mode,
        gb.keys_ssba == 0x0Fu8,
        gb.keys_dulr == 0x0Fu8,
        gb.backbuf_id == 0,
        gb.window_line_counter == 0,
        gb.memory.mapping_type == MappingType::Default,
        forall|i: int| 0 <= i < GB_RAM_SIZE ==> gb.memory.main@[i] == 0u8,
        forall|i: int| 0 <= i < GB_ROM_SIZE ==> gb.memory.boot_rom@[i] == 0u8,
        gb.memory.cartridge@.len() == 0,
        gb.memory.switchable_ram@.len() == 0,
        forall|i: int| 0 <= i < DISPLAY_SIZE ==> gb.displaybuf_0@[i] == 0u8,
        forall|i: int| 0 <= i < DISPLAY_SIZE ==> gb.displaybuf_1@[i] == 0u8,
        gb.mbc == mbc_reset(CartridgeType::NoMBC, 0, 0, false, false),
{
    let registers = Registers {
        a: 0, f: 0, b: 0, c: 0, d: 0, e: 0, h: 0, l: 0,
        sp: 0, pc: 0,
        tima: 0, tma: 0, tac: 0, div_16: 0,
        ly: 0, lcdc: 0, wy: 0, wx: 0, scy: 0, scx: 0, bg_pal: 0,
        ie: 0, iflag: 0, lyc: 0, stat: 0, joypad: 0, bank: 0,
    };

    let memory = MappedRAM {
        mapping_type: MappingType::Default,
        main: zero_vec(GB_RAM_SIZE),
        boot_rom: zero_vec(GB_ROM_SIZE),
        cartridge: Vec::new(),
        switchable_ram: Vec::new(),
    };

    let logger = Logger { level: LogLevel::Silent };

    proof {
        crate::util::lemma_flag_nibble(0);
    }

    GameBoy {
        clock: 0,
        state: State::Execute,
        r: registers,
        cycles_to_idle: Some(0),
        memory,
        mbc: MBC {
            cartridge_type: CartridgeType::NoMBC,
            rom_size: 0,
            ram_size: 0,
            has_battery: false,
            has_ram: false,
            ram_enabled: false,
            rom_bank_number: 1,
            ram_bank_number: 0,
            banking_mode_1_select: false,
            rom_bank_high: 0,
            rom_bank_low: 0,
        },
        ime: false,
        ime_dispatch: None,
        displaybuf_0: zero_vec(DISPLAY_SIZE),
        displaybuf_1: zero_vec(DISPLAY_SIZE),
        backbuf_id: 0,
        logger,
        isr_state: IsrState::Wait1,
        test_mode: false,
        keys_ssba: 0xF,
        keys_dulr: 0xF,
        oam_base: 0,
        timer: Timer { prev_and_result: 0, wait_reload: 0 },
        dma_transfer_bytes_copied: 0,
        dma_base: 0,
        window_line_counter: 0,
    }
}

impl GameBoy {
    /// Inject a boot ROM image: the first 256 bytes of `data` become
    /// the overlay mapped at 0x0000 while BANK reads zero.
    pub fn load_boot_rom(&mut self, data: &Vec<u8>)
        requires
            data@.len() >= GB_ROM_SIZE,
        ensures
            *final(self) == (GameBoy { memory: final(self).memory, ..*old(self) }),
            final(self).memory == (MappedRAM { boot_rom: final(self).memory.boot_rom, ..old(self).memory }),
            final(self).memory.boot_rom@ == data@.subrange(0, GB_ROM_SIZE as int),
    {
        let mut rom: Vec<u8> = Vec::new();
        let mut i: usize = 0;
        while i < GB_ROM_SIZE
            invariant
                i <= GB_ROM_SIZE,
                data@.len() >= GB_ROM_SIZE,
                rom@ == data@.subrange(0, i as int),
            decreases GB_ROM_SIZE - i,
        {
            let b = data[i];
            rom.push(b);
            proof {
                vstd::seq_lib::assert_seqs_equal!(rom@, data@.subrange(0, i + 1));
            }
            i = i + 1;
        }
        self.memory.boot_rom = rom;
    }

    /// Inject a cartridge ROM image.
    pub fn load_cartridge(&mut self, data: Vec<u8>)
        ensures
            *final(self) == (GameBoy { memory: final(self).memory, ..*old(self) }),
            final(self).memory == (MappedRAM { cartridge: final(self).memory.cartridge, ..old(self).memory }),
            final(self).memory.cartridge@ == data@,
    {
        self.memory.cartridge = data;
    }

    /// Raise the IF bit of one interrupt source.
    pub fn request_interrupt(&mut self, interrupt_type: InterruptType)
        ensures
            *final(self) == with_regs(
                *old(self),
                Registers { iflag: old(self).r.iflag | interrupt_mask(interrupt_type), ..old(self).r },
            ),
    {
        let mask: u8 = match interrupt_type {
            InterruptType::VBlank => 1,
            InterruptType::LCD => 2,
            InterruptType::Timer => 4,
            InterruptType::Serial => 8,
            InterruptType::Joypad => 16,
        };
        self.r.iflag = self.r.iflag | mask;
    }

    /// Clear the IF bit of one interrupt source.
    pub fn cancel_interrupt(&mut self, interrupt_type: InterruptType)
        ensures
            *final(self) == with_regs(
                *old(self),
                Registers { iflag: old(self).r.iflag & !interrupt_mask(interrupt_type), ..old(self).r },
            ),
    {
        let mask: u8 = match interrupt_type {
            InterruptType::VBlank => 1,
            InterruptType::LCD => 2,
            InterruptType::Timer => 4,
            InterruptType::Serial => 8,
            InterruptType::Joypad => 16,
        };
        self.r.iflag = self.r.iflag & !mask;
    }

    /// Clear the IF bit at a raw bit index.
    pub fn cancel_interrupt_by_index(&mut self, interrupt_index: u8)
        requires
            interrupt_index < 8,
        ensures
            *final(self) == with_regs(
                *old(self),
                Registers { iflag: old(self).r.iflag & !(1u8 << interrupt_index), ..old(self).r },
            ),
    {
        self.r.iflag = self.r.iflag & !(1u8 << interrupt_index);
    }
}

/// The composed active-low lower nibble of the JOYP register: the key
/// bank chosen by the stored select bits, masked to four bits.
pub open spec fn spec_joyp_low(g: GameBoy) -> u8 {
    (((if (g.r.joypad >> 5) & 1 == 0 { 0u8 } else { 0xFFu8 }) & g.keys_dulr)
        | ((if (g.r.joypad >> 4) & 1 == 0 { 0u8 } else { 0xFFu8 }) & g.keys_ssba)) & 0x0F
}

/// The key bitmaps after pressing key `key_id` (a bit drops to zero).
pub open spec fn keys_after_press(g: GameBoy, key_id: u8) -> (u8, u8) {
    if key_id > 3 {
        (g.keys_ssba, g.keys_dulr & !(1u8 << (key_id - 4) as u8))
    } else {
        (g.keys_ssba & !(1u8 << key_id), g.keys_dulr)
    }
}

/// The key bitmaps after releasing key `key_id` (a bit rises to one).
pub open spec fn keys_after_unpress(g: GameBoy, key_id: u8) -> (u8, u8) {
    if key_id > 3 {
        (g.keys_ssba, g.keys_dulr | (1u8 << (key_id - 4) as u8))
    } else {
        (g.keys_ssba | (1u8 << key_id), g.keys_dulr)
    }
}

/// Full effect of pressing key `key_id`: the key bit drops, and a
/// falling edge on the composed JOYP lower nibble requests the Joypad
/// interrupt.
pub open spec fn press_key_post(a: GameBoy, b: GameBoy, key_id: u8) -> bool {
    let pressed = GameBoy {
        keys_ssba: keys_after_press(a, key_id).0,
        keys_dulr: keys_after_press(a, key_id).1,
        ..a
    };
    b == GameBoy {
        r: Registers {
            iflag: if spec_joyp_low(a) & !spec_joyp_low(pressed) & 0x0F != 0 {
                a.r.iflag | interrupt_mask(InterruptType::Joypad)
            } else {
                a.r.iflag
            },
            ..a.r
        },
        ..pressed
    }
}

/// Full effect of releasing key `key_id`: only the key bit rises.
pub open spec fn unpress_key_post(a: GameBoy, b: GameBoy, key_id: u8) -> bool {
    b == GameBoy {
        keys_ssba: keys_after_unpress(a, key_id).0,
        keys_dulr: keys_after_unpress(a, key_id).1,
        ..a
    }
}

impl GameBoy {
    /// The composed JOYP lower nibble, as the bus would read it.
    fn joypad_low(&self) -> (r: u8)
        ensures
            r == spec_joyp_low(*self),
    {
        let not_select_buttons: u8 = if (self.r.joypad >> 5) & 1 == 0 { 0 } else { 0xFF };
        let not_select_dpad: u8 = if (self.r.joypad >> 4) & 1 == 0 { 0 } else { 0xFF };
        ((not_select_buttons & self.keys_dulr) | (not_select_dpad & self.keys_ssba)) & 0x0F
    }

    /// Press a key.  `key_id` 0–3 are Start/Select/B/A, 4–7 are
    /// Down/Up/Left/Right.
    pub fn press_key(&mut self, key_id: u8)
        requires
            key_id < 8,
        ensures
            press_key_post(*old(self), *final(self), key_id),
    {
        let low_before = self.joypad_low();
        if key_id > 3 {
            self.keys_dulr = self.keys_dulr & !(1u8 << (key_id - 4));
        } else {
            self.keys_ssba = self.keys_ssba & !(1u8 << key_id);
        }
        let low_after = self.joypad_low();
        if low_before & !low_after & 0x0F != 0 {
            self.request_interrupt(InterruptType::Joypad);
        }
    }

    /// Release a key; the corresponding active-low bit rises back to one.
    pub fn unpress_key(&mut self, key_id: u8)
        requires
            key_id < 8,
        ensures
            unpress_key_post(*old(self), *final(self), key_id),
    {
        if key_id > 3 {
            self.keys_dulr = self.keys_dulr | (1u8 << (key_id - 4));
        } else {
            self.keys_ssba = self.keys_ssba | (1u8 << key_id);
        }
    }
}

/// The divider bit that clocks TIMA, selected by the low two bits of
/// TAC: 4096 Hz, 262144 Hz, 65536 Hz or 16384 Hz.
pub open spec fn tac_tap_bit(tac: u8) -> u16 {
    if tac & 3 == 0 { 9u16 }
    else if tac & 3 == 1 { 3u16 }
    else if tac & 3 == 2 { 5u16 }
    else { 7u16 }
}

/// One dot-clock of the timer block: the 16-bit divider advances;
/// while the reload window is open it counts down to the TIMA reload
/// (TIMA takes TMA, the Timer interrupt is requested); otherwise a
/// falling edge of the tap bit ANDed with the TAC enable increments
/// TIMA, and an overflow opens the reload window.
pub open spec fn timer_step(r: Registers, t: Timer) -> (Registers, Timer) {
    let div = vstd::wrapping::u16_specs::wrapping_add(r.div_16, 1);
    if 0 < t.wait_reload && t.wait_reload < 4 {
        (
            Registers { div_16: div, ..r },
            Timer { wait_reload: (t.wait_reload + 1) as i32, ..t },
        )
    } else if t.wait_reload == 4 {
        (
            Registers {
                div_16: div,
                tima: r.tma,
                iflag: r.iflag | interrupt_mask(InterruptType::Timer),
                ..r
            },
            Timer { wait_reload: 0, ..t },
        )
    } else {
        let bit = ((div >> tac_tap_bit(r.tac)) as u8) & 1;
        let timer_enable = (r.tac >> 2) & 1;
        let and_result = bit & timer_enable;
        if t.prev_and_result == 1 && and_result == 0 {
            if r.tima == 0xFF {
                (
                    Registers { div_16: div, tima: 0, ..r },
                    Timer { prev_and_result: and_result, wait_reload: 1 },
                )
            } else {
                (
                    Registers { div_16: div, tima: (r.tima + 1) as u8, ..r },
                    Timer { prev_and_result: and_result, ..t },
                )
            }
        } else {
            (
                Registers { div_16: div, ..r },
                Timer { prev_and_result: and_result, ..t },
            )
        }
    }
}

impl GameBoy {
    /// One dot-clock of the timer block (four run per machine cycle).
    pub fn update_timers(&mut self)
        requires
            old(self).wf(),
        ensures
            final(self).wf(),
            *final(self) == (GameBoy {
                r: timer_step(old(self).r, old(self).timer).0,
                timer: timer_step(old(self).r, old(self).timer).1,
                ..*old(self)
            }),
    {
        self.r.div_16 = self.r.div_16.wrapping_add(1);

        if self.timer.wait_reload > 0 && self.timer.wait_reload < 4 {
            self.timer.wait_reload = self.timer.wait_reload + 1;
            return ;
        } else if self.timer.wait_reload == 4 {
            self.r.tima = self.r.tma;
            self.timer.wait_reload = 0;
            self.request_interrupt(InterruptType::Timer);
            return ;
        }

        let bit_position: u16 = match self.r.tac & 3 {
            0 => 9,
            1 => 3,
            2 => 5,
            _ => 7,
        };

        let bit = ((self.r.div_16 >> bit_position) as u8) & 1;
        let timer_enable = (self.r.tac >> 2) & 1;
        let and_result = bit & timer_enable;

        if self.timer.prev_and_result == 1 && and_result == 0 {
            if self.r.tima == 0xFF {
                self.r.tima = 0;
                self.timer.wait_reload = 1;
            } else {
                self.r.tima = self.r.tima + 1;
            }
        }

        self.timer.prev_and_result = and_result;
    }
}

/// Effect of the CPU execute phase: when the idle counter is spent,
/// the opcode at PC is fetched (advancing PC) and executed, and the
/// counter takes the instruction's cost; a positive counter just
/// counts down; `None` (halted by an illegal opcode) stays put.
pub open spec fn execute_post(a: GameBoy, b: GameBoy) -> bool {
    match a.cycles_to_idle {
        None => b == a,
        Some(c) => if c == 0 {
            exists|m: GameBoy, ret: Option<u8>|
                #[trigger] crate::fde::fde_post(
                    with_regs(a, Registers { pc: crate::util::wadd16(a.r.pc, 1), ..a.r }),
                    m,
                    crate::memory::read_spec(a, a.r.pc),
                    ret,
                ) && b == (GameBoy { cycles_to_idle: ret, ..m })
        } else {
            b == (GameBoy { cycles_to_idle: Some((c - 1) as u8), ..a })
        },
    }
}

/// Four timer dot-clocks applied in a row.
pub open spec fn timer_apply(g: GameBoy) -> GameBoy {
    GameBoy { r: timer_step(g.r, g.timer).0, timer: timer_step(g.r, g.timer).1, ..g }
}

/// The CPU phase of a machine cycle: the interpreter runs only in
/// the Execute and DmaTransfer states.
pub open spec fn cpu_phase_post(a: GameBoy, b: GameBoy) -> bool {
    if a.state == State::Execute || a.state == State::DmaTransfer {
        execute_post(a, b)
    } else {
        b == a
    }
}

/// The renderer phase of a machine cycle: it runs only outside test
/// mode and with the LCD enabled.
pub open spec fn render_phase_post(a: GameBoy, b: GameBoy) -> bool {
    if !a.test_mode && (a.r.lcdc >> 7) & 1 != 0 {
        crate::renderer::renderer_post(a, b)
    } else {
        b == a
    }
}

/// Full effect of one machine cycle, phase by phase: the IME latch's
/// before-execute step, the coincidence check, interrupt dispatch
/// (which consumes the whole cycle), else four timer dot-clocks, the
/// HALT wake-up, the CPU, the IME latch's after-execute step, the
/// renderer, and the cycle count.
pub open spec fn tick_post(a: GameBoy, b: GameBoy) -> bool {
    let g1 = crate::isr::ime_apply(a, false);
    let g2 = with_regs(g1, coincidence_regs(g1.r));
    let wake = g2.r.iflag & g2.r.ie != 0;
    let g3 = if g2.ime && wake {
        GameBoy { state: State::InterruptHandler, ..g2 }
    } else {
        g2
    };
    if g3.state == State::InterruptHandler {
        isr_step_post(g3, b)
    } else {
        let g4 = timer_apply(timer_apply(timer_apply(timer_apply(g3))));
        let g5 = if g4.state == State::Halted && wake {
            GameBoy { state: State::Execute, cycles_to_idle: Some(0u8), ..g4 }
        } else {
            g4
        };
        tick_main_post(g5, b)
    }
}

/// The tail of a non-dispatch cycle, from the state after the HALT
/// wake-up check: the CPU phase, the IME latch's after-execute step,
/// the renderer phase, and the cycle count.
pub open spec fn tick_main_post(g5: GameBoy, b: GameBoy) -> bool {
    exists|g6: GameBoy, g8: GameBoy|
        #[trigger] cpu_phase_post(g5, g6)
        && #[trigger] render_phase_post(crate::isr::ime_apply(g6, true), g8)
        && b == (GameBoy { clock: (g8.clock + 1) as u128, ..g8 })
}

impl GameBoy {
    /// The CPU phase: fetch and execute when the idle counter is
    /// spent, else count it down.
    fn execute(&mut self)
        requires
            old(self).wf(),
        ensures
            final(self).wf(),
            execute_post(*old(self), *final(self)),
            old(self).flags_ok() ==> final(self).flags_ok(),
            final(self).clock == old(self).clock,
            final(self).test_mode == old(self).test_mode,
    {
        if let Some(cycles_to_idle) = self.cycles_to_idle {
            if cycles_to_idle == 0 {
                let opcode: u8 = self.read(self.r.pc);
                self.r.pc = self.r.pc.wrapping_add(1);
                let ghost a1 = *self;
                let r = self.fetch_decode_execute(opcode);
                let ghost m = *self;
                self.cycles_to_idle = r;
                proof {
                    assert(crate::fde::fde_post(a1, m, opcode, r));
                }
            } else {
                self.cycles_to_idle = Some(cycles_to_idle - 1);
            }
        }
    }

    /// Advance the machine by one cycle.
    #[verifier::rlimit(100)]
    pub fn tick(&mut self)
        requires
            old(self).wf(),
            old(self).clock < u128::MAX,
        ensures
            final(self).wf(),
            tick_post(*old(self), *final(self)),
            old(self).flags_ok() ==> final(self).flags_ok(),
            final(self).clock == old(self).clock + 1,
    {
        let ghost a = *old(self);
        self.update_ime(false);
        let ghost g1 = *self;

        self.check_and_trigger_ly_coincidence();
        let ghost g2 = *self;
        proof {
            assert(g1 == crate::isr::ime_apply(a, false));
            assert(g2 == with_regs(g1, coincidence_regs(g1.r)));
        }

        let wake_up = (self.r.iflag & self.r.ie) != 0;
        let interrupt_requested = self.ime && wake_up;

        if interrupt_requested {
            self.state = State::InterruptHandler;
        }
        let ghost g3 = *self;

        if matches!(self.state, State::InterruptHandler) {
            self.handle_interrupts();
            proof {
                assert(isr_step_post(g3, *self));
            }
            return ;
        }

        self.update_timers();
        proof {
            assert(*self == timer_apply(g3));
        }
        let ghost t1 = *self;
        self.update_timers();
        proof {
            assert(*self == timer_apply(t1));
        }
        let ghost t2 = *self;
        self.update_timers();
        proof {
            assert(*self == timer_apply(t2));
        }
        let ghost t3 = *self;
        self.update_timers();
        proof {
            assert(*self == timer_apply(t3));
        }
        let ghost g4 = *self;

        if matches!(self.state, State::Halted) && wake_up {
            self.state = State::Execute;
            self.cycles_to_idle = Some(0);
        }
        let ghost g5 = *self;

        if matches!(self.state, State::Execute) || matches!(self.state, State::DmaTransfer) {
            self.execute();
        }
        let ghost g6 = *self;
        proof {
            assert(cpu_phase_post(g5, g6));
        }

        self.update_ime(true);
        let ghost g7 = *self;

        let lcd_enable = (self.r.lcdc >> 7) & 1 != 0;

        if !self.test_mode && lcd_enable {
            self.renderer();
        }
        let ghost g8 = *self;

        self.clock = self.clock + 1;

        proof {
            let b = *self;
            let s1 = crate::isr::ime_apply(a, false);
            assert(s1 == g1);
            let s2 = with_regs(s1, coincidence_regs(s1.r));
            assert(s2 == g2);
            let wake = s2.r.iflag & s2.r.ie != 0;
            assert(wake == wake_up);
            let s3 = if s2.ime && wake { GameBoy { state: State::InterruptHandler, ..s2 } } else { s2 };
            assert(s3 == g3);
            let s4 = timer_apply(timer_apply(timer_apply(timer_apply(s3))));
            assert(s4 == g4);
            let s5 = if s4.state == State::Halted && wake {
                GameBoy { state: State::Execute, cycles_to_idle: Some(0u8), ..s4 }
            } else {
                s4
            };
            assert(s5 == g5);
            assert(cpu_phase_post(s5, g6));
            assert(g7 == crate::isr::ime_apply(g6, true));
            assert(render_phase_post(crate::isr::ime_apply(g6, true), g8));
            assert(b == (GameBoy { clock: (g8.clock + 1) as u128, ..g8 }));
            assert(tick_main_post(s5, b));
            assert(tick_post(a, b));
        }
    }
}

/// The IF/IE bit index of the highest-priority pending interrupt
/// (the lowest set bit of `masked`), if any is pending.
pub open spec fn pending_index(masked: u8) -> Option<u8> {
    if masked & 1 != 0 { Some(0u8) }
    else if masked & 2 != 0 { Some(1u8) }
    else if masked & 4 != 0 { Some(2u8) }
    else if masked & 8 != 0 { Some(3u8) }
    else if masked & 16 != 0 { Some(4u8) }
    else { None }
}

/// The fixed handler address of interrupt source `i`.
pub open spec fn isr_vector(i: u8) -> u16 {
    if i == 0 { 0x40u16 }
    else if i == 1 { 0x48u16 }
    else if i == 2 { 0x50u16 }
    else if i == 3 { 0x58u16 }
    else { 0x60u16 }
}

/// The machine as it stands when the first byte of PC is pushed: the
/// clock has advanced, SP has dropped by one, and the sequence has
/// moved on to its next sub-state.
pub open spec fn isr_push_mid(a: GameBoy, next: IsrState) -> GameBoy {
    GameBoy {
        clock: (a.clock + 1) as u128,
        isr_state: next,
        r: Registers { sp: vstd::wrapping::u16_specs::wrapping_sub(a.r.sp, 1), ..a.r },
        ..a
    }
}

/// The machine after the final sub-state of the service sequence: if
/// a source is still pending in IE ∩ IF, IME drops, its IF bit is
/// cleared and PC jumps to its vector; either way the CPU resumes
/// fetching with an idle counter of zero.
pub open spec fn isr_jump_apply(a: GameBoy) -> GameBoy {
    let pending = pending_index(a.r.ie & a.r.iflag);
    GameBoy {
        clock: (a.clock + 1) as u128,
        isr_state: IsrState::Wait1,
        state: State::Execute,
        cycles_to_idle: Some(0u8),
        ime: if pending is Some { false } else { a.ime },
        r: match pending {
            Some(i) => Registers {
                pc: isr_vector(i),
                iflag: a.r.iflag & !(1u8 << i),
                ..a.r
            },
            None => a.r,
        },
        ..a
    }
}

/// One machine cycle of the interrupt service sequence: two dead
/// cycles, the two PC pushes (bus writes through the full bus
/// semantics), then the jump.
pub open spec fn isr_step_post(a: GameBoy, b: GameBoy) -> bool {
    match a.isr_state {
        IsrState::Wait1 => b == (GameBoy { clock: (a.clock + 1) as u128, isr_state: IsrState::Wait2, ..a }),
        IsrState::Wait2 => b == (GameBoy { clock: (a.clock + 1) as u128, isr_state: IsrState::PCPush1, ..a }),
        IsrState::PCPush1 => crate::memory::write_post(
            isr_push_mid(a, IsrState::PCPush2),
            b,
            vstd::wrapping::u16_specs::wrapping_sub(a.r.sp, 1),
            crate::util::spec_msb(a.r.pc),
        ),
        IsrState::PCPush2 => crate::memory::write_post(
            isr_push_mid(a, IsrState::Jump),
            b,
            vstd::wrapping::u16_specs::wrapping_sub(a.r.sp, 1),
            crate::util::spec_lsb(a.r.pc),
        ),
        IsrState::Jump => b == isr_jump_apply(a),
    }
}

impl GameBoy {
    /// Advance the interrupt service sequence by one machine cycle.
    fn handle_interrupts(&mut self)
        requires
            old(self).wf(),
            old(self).clock < u128::MAX,
        ensures
            final(self).wf(),
            isr_step_post(*old(self), *final(self)),
            final(self).r.f == old(self).r.f,
            final(self).clock == old(self).clock + 1,
    {
        self.clock = self.clock + 1;
        match self.isr_state {
            IsrState::Wait1 => {
                self.isr_state = IsrState::Wait2;
            },
            IsrState::Wait2 => {
                self.isr_state = IsrState::PCPush1;
            },
            IsrState::PCPush1 => {
                self.r.sp = self.r.sp.wrapping_sub(1);
                self.isr_state = IsrState::PCPush2;
                let sp = self.r.sp;
                let hi = crate::util::msb(self.r.pc);
                let ghost pre = *self;
                self.write(sp, hi);
                proof {
                    crate::memory::lemma_write_keeps_cpu(pre, *self, sp, hi);
                }
            },
            IsrState::PCPush2 => {
                self.r.sp = self.r.sp.wrapping_sub(1);
                self.isr_state = IsrState::Jump;
                let sp = self.r.sp;
                let lo = crate::util::lsb(self.r.pc);
                let ghost pre = *self;
                self.write(sp, lo);
                proof {
                    crate::memory::lemma_write_keeps_cpu(pre, *self, sp, lo);
                }
            },
            IsrState::Jump => {
                let masked = self.r.ie & self.r.iflag;
                let idx: u8 = if masked & 1 != 0 { 0 }
                    else if masked & 2 != 0 { 1 }
                    else if masked & 4 != 0 { 2 }
                    else if masked & 8 != 0 { 3 }
                    else if masked & 16 != 0 { 4 }
                    else { 5 };
                if idx < 5 {
                    self.ime = false;
                    self.r.pc = if idx == 0 { 0x40 }
                        else if idx == 1 { 0x48 }
                        else if idx == 2 { 0x50 }
                        else if idx == 3 { 0x58 }
                        else { 0x60 };
                    self.cancel_interrupt_by_index(idx);
                }
                self.isr_state = IsrState::Wait1;
                self.state = State::Execute;
                self.cycles_to_idle = Some(0);
            },
        }
    }
}

/// STAT after re-evaluating the LY = LYC coincidence flag (bit 2);
/// the rest of the register is untouched.
pub open spec fn stat_after_coincidence(r: Registers) -> u8 {
    if r.ly == r.lyc {
        (r.stat & 0xFB) | 4
    } else {
        r.stat & 0xFB
    }
}

/// The coincidence check fires the LCD STAT interrupt only on the
/// rising edge of the flag, and only when STAT bit 6 enables it.
pub open spec fn coincidence_requests(r: Registers) -> bool {
    ((stat_after_coincidence(r) >> 6) & (stat_after_coincidence(r) >> 2) & 1) != 0
        && (r.stat >> 2) & 1 == 0
}

/// The register file after the coincidence check.
pub open spec fn coincidence_regs(r: Registers) -> Registers {
    Registers {
        stat: stat_after_coincidence(r),
        iflag: if coincidence_requests(r) {
            r.iflag | interrupt_mask(InterruptType::LCD)
        } else {
            r.iflag
        },
        ..r
    }
}

/// Full effect of the coincidence check on the machine.
pub open spec fn coincidence_post(a: GameBoy, b: GameBoy) -> bool {
    b == with_regs(a, coincidence_regs(a.r))
}

impl GameBoy {
    /// Re-evaluate the LY = LYC coincidence flag and request the LCD
    /// STAT interrupt on its enabled rising edge.
    pub fn check_and_trigger_ly_coincidence(&mut self)
        ensures
            coincidence_post(*old(self), *final(self)),
    {
        let stat_old = self.r.stat;
        if self.r.ly == self.r.lyc {
            self.r.stat = (self.r.stat & 0xFB) | 4;
        } else {
            self.r.stat = self.r.stat & 0xFB;
        }
        if (self.r.stat >> 6) & (self.r.stat >> 2) & 1 != 0 && (stat_old >> 2) & 1 == 0 {
            self.request_interrupt(InterruptType::LCD);
        }
    }
}

} // verus!
