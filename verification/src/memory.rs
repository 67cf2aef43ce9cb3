//! The memory bus: backing storage, the two mapping modes, and the
//! `read`/`write` entry points with their exact semantics.
//!
//! `Flat` maps every address straight into one 64 KiB array (used by
//! per-instruction unit tests); `Default` applies the full device
//! semantics — boot-ROM overlay, cartridge banks, echo RAM, the
//! prohibited region and the memory-mapped I/O registers.  In both
//! modes the memory-mapped registers are dispatched first, and every
//! write also lands in the backing array (harmless, because no mapped
//! read ever returns those cells).

use vstd::prelude::*;

use crate::gb::{coincidence_regs, spec_joyp_low, GameBoy, Registers, Timer};
use crate::mbc::{spec_rom_bank_0, spec_switchable_ram, spec_switchable_rom, CartridgeType, MBC};
use crate::util::zero_vec;

verus! {

/// Size of the flat address space backing the bus.
pub const GB_RAM_SIZE: usize = 0x10000;

/// Size of the boot ROM overlay at 0x0000.
pub const GB_ROM_SIZE: usize = 0x100;

/// A flat 64 KiB address space, every cell readable and writable.
pub type FlatRAM = Vec<u8>;

/// A zeroed flat address space.
pub fn init() -> (ram: FlatRAM)
    ensures
        ram@.len() == GB_RAM_SIZE,
        forall|i: int| 0 <= i < GB_RAM_SIZE ==> ram@[i] == 0u8,
{
    zero_vec(GB_RAM_SIZE)
}

/// How the bus decodes addresses.
#[derive(Clone, Copy, Debug, PartialEq, Eq, Structural)]
pub enum MappingType {
    /// All addresses readable and writable, no device semantics.
    Flat,
    /// Normal DMG behaviour with cartridge bank mapping.
    Default,
}

/// Backing storage of the bus.
pub struct MappedRAM {
    pub mapping_type: MappingType,
    /// VRAM, work RAM, OAM, high RAM, and the flat space in `Flat` mode.
    pub main: Vec<u8>,
    /// The 256-byte boot ROM, overlaid at 0x0000 while BANK reads zero.
    pub boot_rom: Vec<u8>,
    /// The cartridge ROM image.
    pub cartridge: Vec<u8>,
    /// External (cartridge) RAM, in 8 KiB banks.
    pub switchable_ram: Vec<u8>,
}

/// What a bus read returns, with the 64 KiB array contents given
/// separately as `main` (so that the OAM DMA copy, which mutates the
/// array while it reads, can be described step by step).
pub open spec fn read_spec_with(g: GameBoy, main: Seq<u8>, address: u16) -> u8 {
    if address == 0xFF00 {
        (g.r.joypad & 0xF0) | spec_joyp_low(g)
    } else if address == 0xFF04 {
        (g.r.div_16 >> 8) as u8
    } else if address == 0xFF05 {
        g.r.tima
    } else if address == 0xFF06 {
        g.r.tma
    } else if address == 0xFF07 {
        g.r.tac
    } else if address == 0xFF40 {
        g.r.lcdc
    } else if address == 0xFF41 {
        g.r.stat
    } else if address == 0xFF42 {
        g.r.scy
    } else if address == 0xFF43 {
        g.r.scx
    } else if address == 0xFF44 {
        g.r.ly
    } else if address == 0xFF45 {
        g.r.lyc
    } else if address == 0xFF47 {
        g.r.bg_pal
    } else if address == 0xFF4A {
        g.r.wy
    } else if address == 0xFF4B {
        g.r.wx
    } else if address == 0xFF50 {
        g.r.bank
    } else if address == 0xFF0F {
        g.r.iflag
    } else if address == 0xFFFF {
        g.r.ie
    } else if g.memory.mapping_type == MappingType::Flat {
        main[address as int]
    } else if g.r.bank == 0 && address < 0x100 {
        g.memory.boot_rom@[address as int]
    } else if address <= 0x3FFF {
        spec_rom_bank_0(g, address)
    } else if address <= 0x7FFF {
        spec_switchable_rom(g, (address - 0x4000) as u16)
    } else if address <= 0x9FFF {
        main[address as int]
    } else if address <= 0xBFFF {
        if g.mbc.has_ram && g.mbc.ram_enabled {
            spec_switchable_ram(g, (address - 0xA000) as u16)
        } else {
            0xFF
        }
    } else if address <= 0xDFFF {
        main[address as int]
    } else if address <= 0xFDFF {
        main[address - 0x2000]
    } else if address <= 0xFE9F {
        main[address as int]
    } else if address <= 0xFEFF {
        0xFF
    } else if address == 0xFF48 || address == 0xFF49 {
        main[address as int]
    } else if address <= 0xFF7F {
        0xFF
    } else {
        // 0xFF80 ..= 0xFFFE: high RAM (0xFFFF was dispatched above)
        main[address as int]
    }
}

/// What a bus read returns in state `g`.
pub open spec fn read_spec(g: GameBoy, address: u16) -> u8 {
    read_spec_with(g, g.memory.main@, address)
}

impl GameBoy {
    /// Read one byte from the bus.
    pub fn read(&self, address: u16) -> (r: u8)
        requires
            self.wf(),
        ensures
            r == read_spec(*self, address),
    {
        match address {
            0xFF00 => {
                let not_select_buttons: u8 = if (self.r.joypad >> 5) & 1 == 0 { 0 } else { 0xFF };
                let not_select_dpad: u8 = if (self.r.joypad >> 4) & 1 == 0 { 0 } else { 0xFF };
                let lower_nibble = ((not_select_buttons & self.keys_dulr)
                    | (not_select_dpad & self.keys_ssba)) & 0x0F;
                (self.r.joypad & 0xF0) | lower_nibble
            },
            0xFF04 => (self.r.div_16 >> 8) as u8,
            0xFF05 => self.r.tima,
            0xFF06 => self.r.tma,
            0xFF07 => self.r.tac,
            0xFF40 => self.r.lcdc,
            0xFF41 => self.r.stat,
            0xFF42 => self.r.scy,
            0xFF43 => self.r.scx,
            0xFF44 => self.r.ly,
            0xFF45 => self.r.lyc,
            0xFF47 => self.r.bg_pal,
            0xFF4A => self.r.wy,
            0xFF4B => self.r.wx,
            0xFF50 => self.r.bank,
            0xFF0F => self.r.iflag,
            0xFFFF => self.r.ie,
            _ => {
                match self.memory.mapping_type {
                    MappingType::Flat => self.memory.main[address as usize],
                    MappingType::Default => {
                        if self.r.bank == 0 && address < 0x100 {
                            // boot ROM while still mapped
                            self.memory.boot_rom[address as usize]
                        } else if address <= 0x3FFF {
                            // ROM bank 0
                            self.mbc_rom_bank_0(address)
                        } else if address <= 0x7FFF {
                            // switchable ROM banks 01-NN
                            self.mbc_switchable_rom(address - 0x4000)
                        } else if address <= 0x9FFF {
                            // VRAM
                            self.memory.main[address as usize]
                        } else if address <= 0xBFFF {
                            // external RAM
                            if self.mbc.has_ram && self.mbc.ram_enabled {
                                self.mbc_switchable_ram(address - 0xA000)
                            } else {
                                0xFF
                            }
                        } else if address <= 0xDFFF {
                            // work RAM
                            self.memory.main[address as usize]
                        } else if address <= 0xFDFF {
                            // echo RAM
                            self.memory.main[(address - 0x2000) as usize]
                        } else if address <= 0xFE9F {
                            // OAM
                            self.memory.main[address as usize]
                        } else if address <= 0xFEFF {
                            // prohibited region
                            0xFF
                        } else if address == 0xFF48 || address == 0xFF49 {
                            // sprite palettes, backed by the array
                            self.memory.main[address as usize]
                        } else if address <= 0xFF7F {
                            // unmapped I/O register
                            0xFF
                        } else {
                            // high RAM
                            self.memory.main[address as usize]
                        }
                    },
                }
            },
        }
    }
}

/// `b`'s backing storage equals `a`'s except possibly the main array.
pub open spec fn same_except_main(a: MappedRAM, b: MappedRAM) -> bool {
    b == MappedRAM { main: b.main, ..a }
}

/// `b`'s backing storage equals `a`'s except possibly the main array
/// and the external RAM.
pub open spec fn same_except_main_sram(a: MappedRAM, b: MappedRAM) -> bool {
    b == MappedRAM { main: b.main, switchable_ram: b.switchable_ram, ..a }
}

/// The main array of `b` is that of `a` with one cell stored.
pub open spec fn mem_updated(a: GameBoy, b: GameBoy, addr: int, data: u8) -> bool {
    same_except_main(a.memory, b.memory) && b.memory.main@ == a.memory.main@.update(addr, data)
}

/// A write that lands in a register file cell: register file becomes
/// `r`, the byte also lands in the main array, nothing else moves.
pub open spec fn regs_and_main_update(a: GameBoy, b: GameBoy, r: Registers, addr: int, data: u8) -> bool {
    mem_updated(a, b, addr, data) && b == GameBoy { memory: b.memory, r, ..a }
}

/// The main array after the first `k` bytes of an OAM DMA copy from
/// source page `base`: byte `i` of OAM is the bus read of `base + i`
/// against the array as it stood after `i` copied bytes.
pub open spec fn dma_main_after(g: GameBoy, base: u16, k: nat) -> Seq<u8>
    decreases k,
{
    if k == 0 {
        g.memory.main@
    } else {
        let prev = dma_main_after(g, base, (k - 1) as nat);
        prev.update(0xFE00 + k - 1, read_spec_with(g, prev, (base + k - 1) as u16))
    }
}

/// The bank-switching state after an MBC control write at `address`.
/// MBC1 semantics, with the same structural pattern and wider bank
/// fields for MBC3 and MBC5; the selected ROM bank is masked to the
/// bank count of the descriptor.
pub open spec fn mbc_regs_after_write(m: MBC, address: u16, data: u8) -> MBC {
    if m.cartridge_type == CartridgeType::NoMBC {
        m
    } else if address <= 0x1FFF {
        MBC { ram_enabled: (data & 0x0F) == 0x0A, ..m }
    } else if address <= 0x3FFF {
        if m.cartridge_type == CartridgeType::MBC5 {
            MBC { rom_bank_number: mask_to_banks(data, m.rom_size), ..m }
        } else {
            let raw = if m.cartridge_type == CartridgeType::MBC1 {
                data & 0x1F
            } else {
                data & 0x7F
            };
            let low = mask_to_banks(if raw == 0 { 1 } else { raw }, m.rom_size);
            MBC {
                rom_bank_number: if m.cartridge_type == CartridgeType::MBC1
                    && m.banking_mode_1_select {
                    low | (m.ram_bank_number << 5)
                } else {
                    low
                },
                ..m
            }
        }
    } else if address <= 0x5FFF {
        MBC {
            ram_bank_number: if m.cartridge_type == CartridgeType::MBC5 {
                data & 0x0F
            } else {
                data & 0x03
            },
            ..m
        }
    } else if address <= 0x7FFF {
        if m.cartridge_type == CartridgeType::MBC1 {
            MBC { banking_mode_1_select: data == 1, ..m }
        } else {
            m
        }
    } else {
        m
    }
}

/// A ROM bank index masked to the power-of-two bank count that a ROM
/// of `rom_size` bytes holds (16 KiB per bank).
pub open spec fn mask_to_banks(bank: u8, rom_size: usize) -> u8 {
    let num_banks = rom_size / 16384;
    if num_banks > 0 && bank > num_banks {
        (bank & ((if num_banks < 256 { num_banks } else { 256 } - 1) as u8)) as u8
    } else {
        bank
    }
}

/// Whether an MBC control write at `address` stores `data` into the
/// selected external RAM bank.
pub open spec fn mbc_write_hits_sram(g: GameBoy, address: u16) -> bool {
    g.mbc.cartridge_type != CartridgeType::NoMBC && g.mbc.has_ram && g.mbc.ram_enabled
        && 0xA000 <= address <= 0xBFFF
}

/// The external RAM cell an MBC data write stores into.
pub open spec fn sram_index(g: GameBoy, address: u16) -> int {
    g.mbc.ram_bank_number * 8192 + (address - 0xA000)
}

/// Full effect of one bus write of `data` at `address` on the machine:
/// the memory-mapped registers are dispatched first (with their side
/// effects: TIMA reload cancel, divider reset, coincidence checks, OAM
/// DMA, boot-ROM unmap), then MBC control decoding in `Default`
/// mapping, and the byte always also lands in the main array.
pub open spec fn write_post(a: GameBoy, b: GameBoy, address: u16, data: u8) -> bool {
    if address == 0xFF05 {
        mem_updated(a, b, address as int, data) && b == GameBoy {
            memory: b.memory,
            r: Registers { tima: data, ..a.r },
            timer: Timer { wait_reload: 0, ..a.timer },
            ..a
        }
    } else if address == 0xFF06 {
        regs_and_main_update(a, b, Registers { tma: data, ..a.r }, address as int, data)
    } else if address == 0xFF07 {
        regs_and_main_update(a, b, Registers { tac: data, ..a.r }, address as int, data)
    } else if address == 0xFF04 {
        regs_and_main_update(a, b, Registers { div_16: 0, ..a.r }, address as int, data)
    } else if address == 0xFF44 {
        regs_and_main_update(a, b, coincidence_regs(Registers { ly: data, ..a.r }), address as int, data)
    } else if address == 0xFF40 {
        regs_and_main_update(a, b, Registers { lcdc: data, ..a.r }, address as int, data)
    } else if address == 0xFF4A {
        regs_and_main_update(a, b, Registers { wy: data, ..a.r }, address as int, data)
    } else if address == 0xFF4B {
        regs_and_main_update(a, b, Registers { wx: data, ..a.r }, address as int, data)
    } else if address == 0xFF42 {
        regs_and_main_update(a, b, Registers { scy: data, ..a.r }, address as int, data)
    } else if address == 0xFF43 {
        regs_and_main_update(a, b, Registers { scx: data, ..a.r }, address as int, data)
    } else if address == 0xFF47 {
        regs_and_main_update(a, b, Registers { bg_pal: data, ..a.r }, address as int, data)
    } else if address == 0xFFFF {
        regs_and_main_update(a, b, Registers { ie: data, ..a.r }, address as int, data)
    } else if address == 0xFF0F {
        regs_and_main_update(a, b, Registers { iflag: data, ..a.r }, address as int, data)
    } else if address == 0xFF45 {
        regs_and_main_update(a, b, coincidence_regs(Registers { lyc: data, ..a.r }), address as int, data)
    } else if address == 0xFF41 {
        regs_and_main_update(a, b, Registers { stat: data, ..a.r }, address as int, data)
    } else if address == 0xFF00 {
        regs_and_main_update(a, b, Registers { joypad: data & 0xF0, ..a.r }, address as int, data)
    } else if address == 0xFF46 {
        same_except_main(a.memory, b.memory)
            && b.memory.main@ == dma_main_after(a, (data as u16) << 8, 160).update(address as int, data)
            && b == GameBoy {
                memory: b.memory,
                dma_base: (data as u16) << 8,
                ..a
            }
    } else if address == 0xFF50 {
        regs_and_main_update(
            a,
            b,
            Registers { bank: if data != 0 { data } else { a.r.bank }, ..a.r },
            address as int,
            data,
        )
    } else if a.memory.mapping_type == MappingType::Flat {
        mem_updated(a, b, address as int, data) && b == GameBoy { memory: b.memory, ..a }
    } else {
        // Default mapping: the echo-RAM mirror, MBC control decoding,
        // then the array store.
        same_except_main_sram(a.memory, b.memory)
            && b.memory.main@ == (if 0xE000 <= address <= 0xFDFF {
                a.memory.main@.update(address - 0x2000, data)
            } else {
                a.memory.main@
            }).update(address as int, data)
            && b.memory.switchable_ram@ == (if mbc_write_hits_sram(a, address)
                && 0 <= sram_index(a, address) < a.memory.switchable_ram@.len() {
                a.memory.switchable_ram@.update(sram_index(a, address), data)
            } else {
                a.memory.switchable_ram@
            })
            && b == GameBoy {
                memory: b.memory,
                mbc: mbc_regs_after_write(a.mbc, address, data),
                ..a
            }
    }
}

/// No bus write moves the CPU-only state: the flag register, SP, PC,
/// the CPU and service-sequence states, IME and its latch, the idle
/// counter or the clock.
pub proof fn lemma_write_keeps_cpu(a: GameBoy, b: GameBoy, address: u16, data: u8)
    requires
        write_post(a, b, address, data),
    ensures
        b.r.f == a.r.f,
        b.r.sp == a.r.sp,
        b.r.pc == a.r.pc,
        b.r.a == a.r.a,
        b.state == a.state,
        b.isr_state == a.isr_state,
        b.ime == a.ime,
        b.ime_dispatch == a.ime_dispatch,
        b.cycles_to_idle == a.cycles_to_idle,
        b.clock == a.clock,
        b.test_mode == a.test_mode,
{
}

impl GameBoy {
    /// Write one byte to the bus.
    #[verifier::rlimit(60)]
    pub fn write(&mut self, address: u16, data: u8)
        requires
            old(self).wf(),
        ensures
            final(self).wf(),
            write_post(*old(self), *final(self), address, data),
    {
        match address {
            0xFF05 => {
                self.timer.wait_reload = 0;
                self.r.tima = data;
            },
            0xFF06 => {
                self.r.tma = data;
            },
            0xFF07 => {
                self.r.tac = data;
            },
            0xFF04 => {
                self.r.div_16 = 0;
            },
            0xFF44 => {
                self.r.ly = data;
                self.check_and_trigger_ly_coincidence();
            },
            0xFF40 => {
                self.r.lcdc = data;
            },
            0xFF4A => {
                self.r.wy = data;
            },
            0xFF4B => {
                self.r.wx = data;
            },
            0xFF42 => {
                self.r.scy = data;
            },
            0xFF43 => {
                self.r.scx = data;
            },
            0xFF47 => {
                self.r.bg_pal = data;
            },
            0xFFFF => {
                self.r.ie = data;
            },
            0xFF0F => {
                self.r.iflag = data;
            },
            0xFF45 => {
                self.r.lyc = data;
                self.check_and_trigger_ly_coincidence();
            },
            0xFF41 => {
                self.r.stat = data;
            },
            0xFF00 => {
                self.r.joypad = data & 0xF0;
            },
            0xFF46 => {
                assert(((data as u16) << 8) <= 0xFF00) by (bit_vector);
                let base: u16 = (data as u16) << 8;
                let ghost a = *self;
                let mut i: usize = 0;
                while i < 160
                    invariant
                        0 <= i <= 160,
                        base == ((data as u16) << 8),
                        base <= 0xFF00,
                        self.wf(),
                        *self == (GameBoy { memory: self.memory, ..a }),
                        same_except_main(a.memory, self.memory),
                        self.memory.main@ == dma_main_after(a, base, i as nat),
                    decreases 160 - i,
                {
                    let byte = self.read(base + (i as u16));
                    proof {
                        // the bus read against the evolving array matches
                        // the step function: only the main array moved
                        assert(read_spec(*self, (base + i as u16) as u16)
                            == read_spec_with(a, self.memory.main@, (base + i as u16) as u16));
                    }
                    self.memory.main[0xFE00 + i] = byte;
                    i = i + 1;
                }
                proof {
                    assert(self.memory.main@ == dma_main_after(a, base, 160));
                }
                self.dma_base = base;
            },
            0xFF50 => {
                if data != 0 {
                    self.r.bank = data;
                }
            },
            _ => {
                match self.memory.mapping_type {
                    MappingType::Flat => {},
                    MappingType::Default => {
                        if 0xE000 <= address && address <= 0xFDFF {
                            // echo RAM reflects into work RAM
                            self.memory.main[(address - 0x2000) as usize] = data;
                        }
                        match self.mbc.cartridge_type {
                            CartridgeType::NoMBC => {},
                            CartridgeType::MBC1 | CartridgeType::MBC3 | CartridgeType::MBC5 => {
                                self.mbc_control_write(address, data);
                                if self.mbc.cartridge_type != CartridgeType::NoMBC
                                    && self.mbc.has_ram && self.mbc.ram_enabled
                                    && 0xA000 <= address && address <= 0xBFFF {
                                    let idx: usize = (self.mbc.ram_bank_number as usize) * 8192
                                        + ((address - 0xA000) as usize);
                                    if idx < self.memory.switchable_ram.len() {
                                        self.memory.switchable_ram[idx] = data;
                                    }
                                }
                            },
                        }
                    },
                }
            },
        }
        // Not every cell of the array is reachable through the mapping,
        // so the unconditional store is harmless.
        self.memory.main[address as usize] = data;
    }

    /// Decode an MBC control write into the bank-switching registers.
    fn mbc_control_write(&mut self, address: u16, data: u8)
        requires
            !(old(self).mbc.cartridge_type == CartridgeType::NoMBC),
        ensures
            *final(self) == (GameBoy { mbc: mbc_regs_after_write(old(self).mbc, address, data), ..*old(self) }),
    {
        if address <= 0x1FFF {
            self.mbc.ram_enabled = (data & 0x0F) == 0x0A;
        } else if address <= 0x3FFF {
            if matches!(self.mbc.cartridge_type, CartridgeType::MBC5) {
                self.mbc.rom_bank_number = self.mask_to_num_banks(data);
            } else {
                let raw: u8 = if matches!(self.mbc.cartridge_type, CartridgeType::MBC1) {
                    data & 0x1F
                } else {
                    data & 0x7F
                };
                let low = self.mask_to_num_banks(if raw == 0 { 1 } else { raw });
                if matches!(self.mbc.cartridge_type, CartridgeType::MBC1)
                    && self.mbc.banking_mode_1_select {
                    self.mbc.rom_bank_number = low | (self.mbc.ram_bank_number << 5);
                } else {
                    self.mbc.rom_bank_number = low;
                }
            }
        } else if address <= 0x5FFF {
            self.mbc.ram_bank_number = if matches!(self.mbc.cartridge_type, CartridgeType::MBC5) {
                data & 0x0F
            } else {
                data & 0x03
            };
        } else if address <= 0x7FFF {
            if matches!(self.mbc.cartridge_type, CartridgeType::MBC1) {
                self.mbc.banking_mode_1_select = data == 1;
            }
        }
    }

    /// Mask a selected ROM bank to the descriptor's bank count.
    fn mask_to_num_banks(&self, bank: u8) -> (r: u8)
        ensures
            r == mask_to_banks(bank, self.mbc.rom_size),
    {
        let num_banks: usize = self.mbc.rom_size / 16384;
        if num_banks > 0 && (bank as usize) > num_banks {
            let limit: usize = if num_banks < 256 { num_banks } else { 256 };
            bank & ((limit - 1) as u8)
        } else {
            bank
        }
    }
}

} // verus!
