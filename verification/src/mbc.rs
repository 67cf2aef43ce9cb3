//! Cartridge memory-bank-controller state and the banked views of
//! cartridge ROM and RAM.
//!
//! The descriptor is decoded from the cartridge header (bytes 0x0147
//! through 0x0149); the bank-switching registers are driven by writes to
//! the ROM address range, decoded in [`crate::memory`].  Reads outside
//! the image behave like an open bus and return 0xFF.

use vstd::prelude::*;

use crate::gb::GameBoy;

verus! {

/// Which bank controller the cartridge carries.
#[derive(Clone, Copy, Debug, PartialEq, Eq, Structural)]
pub enum CartridgeType {
    NoMBC,
    MBC1,
    MBC3,
    MBC5,
}

/// Bank controller descriptor and live bank-switching state.
#[derive(Clone, Copy, Debug, PartialEq, Eq, Structural)]
pub struct MBC {
    pub cartridge_type: CartridgeType,
    pub rom_size: usize,
    pub ram_size: usize,
    pub has_battery: bool,
    pub has_ram: bool,
    pub ram_enabled: bool,
    pub rom_bank_number: u8,
    pub ram_bank_number: u8,
    pub banking_mode_1_select: bool,
    pub rom_bank_high: u8,
    pub rom_bank_low: u8,
}

/// The bank state a cartridge starts in: banking off, ROM bank 1 selected.
pub open spec fn mbc_reset(cartridge_type: CartridgeType, rom_size: usize, ram_size: usize,
    has_battery: bool, has_ram: bool) -> MBC {
    MBC {
        cartridge_type,
        rom_size,
        ram_size,
        has_battery,
        has_ram,
        ram_enabled: false,
        rom_bank_number: 1,
        ram_bank_number: 0,
        banking_mode_1_select: false,
        rom_bank_high: 0,
        rom_bank_low: 0,
    }
}

/// Byte `offset` of the fixed ROM bank 0; 0xFF beyond the image.
pub open spec fn spec_rom_bank_0(g: GameBoy, offset: u16) -> u8 {
    if offset < g.memory.cartridge@.len() {
        g.memory.cartridge@[offset as int]
    } else {
        0xFF
    }
}

/// Byte `offset` of the currently selected switchable ROM bank;
/// 0xFF beyond the image.
pub open spec fn spec_switchable_rom(g: GameBoy, offset: u16) -> u8 {
    let idx = g.mbc.rom_bank_number * 16384 + offset;
    if idx < g.memory.cartridge@.len() {
        g.memory.cartridge@[idx as int]
    } else {
        0xFF
    }
}

/// Byte `offset` of the currently selected external RAM bank;
/// 0xFF beyond the allocated RAM.
pub open spec fn spec_switchable_ram(g: GameBoy, offset: u16) -> u8 {
    let idx = g.mbc.ram_bank_number * 8192 + offset;
    if idx < g.memory.switchable_ram@.len() {
        g.memory.switchable_ram@[idx as int]
    } else {
        0xFF
    }
}

impl GameBoy {
    /// Read from cartridge ROM bank 0 (bus range 0x0000–0x3FFF).
    pub fn mbc_rom_bank_0(&self, offset: u16) -> (r: u8)
        ensures
            r == spec_rom_bank_0(*self, offset),
    {
        if (offset as usize) < self.memory.cartridge.len() {
            self.memory.cartridge[offset as usize]
        } else {
            0xFF
        }
    }

    /// Read from the selected switchable ROM bank (bus range
    /// 0x4000–0x7FFF, at `offset` from 0x4000).
    pub fn mbc_switchable_rom(&self, offset: u16) -> (r: u8)
        ensures
            r == spec_switchable_rom(*self, offset),
    {
        let idx: usize = (self.mbc.rom_bank_number as usize) * 16384 + (offset as usize);
        if idx < self.memory.cartridge.len() {
            self.memory.cartridge[idx]
        } else {
            0xFF
        }
    }

    /// Read from the selected external RAM bank (bus range
    /// 0xA000–0xBFFF, at `offset` from 0xA000).
    pub fn mbc_switchable_ram(&self, offset: u16) -> (r: u8)
        ensures
            r == spec_switchable_ram(*self, offset),
    {
        let idx: usize = (self.mbc.ram_bank_number as usize) * 8192 + (offset as usize);
        if idx < self.memory.switchable_ram.len() {
            self.memory.switchable_ram[idx]
        } else {
            0xFF
        }
    }
}

/// Why a cartridge header cannot be accepted.
#[derive(Clone, Copy, Debug, PartialEq, Eq, Structural)]
pub enum CartError {
    /// The image is shorter than the 0x150-byte header area.
    CartridgeTooShort,
    /// The cartridge-type byte names hardware this core does not model.
    UnsupportedCartridgeType,
    /// The ROM-size byte names a documented but unsupported layout.
    UnsupportedRomSize,
    /// The ROM-size byte is outside the documented set.
    InvalidRomSize,
    /// The RAM-size byte names a documented but unsupported layout.
    UnsupportedRamSize,
    /// The RAM-size byte is outside the documented set.
    InvalidRamSize,
}

/// The controller, battery and RAM flags named by the cartridge-type
/// byte at 0x0147, for the types this core models.
pub open spec fn cart_type_of(b: u8) -> Option<(CartridgeType, bool, bool)> {
    if b == 0x00 { Some((CartridgeType::NoMBC, false, false)) }
    else if b == 0x01 { Some((CartridgeType::MBC1, false, false)) }
    else if b == 0x02 { Some((CartridgeType::MBC1, false, true)) }
    else if b == 0x03 { Some((CartridgeType::MBC1, true, true)) }
    else if b == 0x11 { Some((CartridgeType::MBC3, false, false)) }
    else if b == 0x12 { Some((CartridgeType::MBC3, false, true)) }
    else if b == 0x13 { Some((CartridgeType::MBC3, true, true)) }
    else if b == 0x1A { Some((CartridgeType::MBC5, false, true)) }
    else if b == 0x1B { Some((CartridgeType::MBC5, true, true)) }
    else { None }
}

/// The ROM size in bytes named by the header byte at 0x0148:
/// 32 KiB doubled `b` times, for `b` up to 8.
pub open spec fn rom_size_of(b: u8) -> Option<usize> {
    if b == 0 { Some(32768usize) }
    else if b == 1 { Some(65536usize) }
    else if b == 2 { Some(131072usize) }
    else if b == 3 { Some(262144usize) }
    else if b == 4 { Some(524288usize) }
    else if b == 5 { Some(1048576usize) }
    else if b == 6 { Some(2097152usize) }
    else if b == 7 { Some(4194304usize) }
    else if b == 8 { Some(8388608usize) }
    else { None }
}

/// The error owed for a ROM-size byte that was not accepted.
pub open spec fn rom_err_of(b: u8) -> CartError {
    if 0x52 <= b <= 0x54 { CartError::UnsupportedRomSize } else { CartError::InvalidRomSize }
}

/// The external RAM size in bytes named by the header byte at 0x0149.
pub open spec fn ram_size_of(b: u8) -> Option<usize> {
    if b == 0 { Some(0usize) }
    else if b == 2 { Some(8192usize) }
    else if b == 3 { Some(32768usize) }
    else if b == 4 { Some(131072usize) }
    else if b == 5 { Some(65536usize) }
    else { None }
}

/// The error owed for a RAM-size byte that was not accepted.
pub open spec fn ram_err_of(b: u8) -> CartError {
    if b == 1 { CartError::UnsupportedRamSize } else { CartError::InvalidRamSize }
}

/// What decoding the bank-controller descriptor yields on a given
/// machine: each malformed header byte is rejected with its error,
/// in header order.
pub open spec fn detect_mbc_result(g: GameBoy) -> Result<MBC, CartError> {
    if g.memory.cartridge@.len() < 0x150 {
        Err(CartError::CartridgeTooShort)
    } else {
        let tb = g.memory.cartridge@[0x147];
        let rb = g.memory.cartridge@[0x148];
        let ab = g.memory.cartridge@[0x149];
        match cart_type_of(tb) {
            None => Err(CartError::UnsupportedCartridgeType),
            Some(t) => match rom_size_of(rb) {
                None => Err(rom_err_of(rb)),
                Some(rs) => match ram_size_of(ab) {
                    None => Err(ram_err_of(ab)),
                    Some(ras) => Ok(mbc_reset(t.0, rs, ras, t.1, t.2)),
                },
            },
        }
    }
}

impl GameBoy {
    /// Decode the bank-controller descriptor from the cartridge
    /// header and allocate the external RAM it calls for.  A
    /// malformed header is rejected and leaves the machine untouched.
    pub fn detect_mbc(&mut self) -> (r: Result<MBC, CartError>)
        ensures
            r == detect_mbc_result(*old(self)),
            r is Err ==> *final(self) == *old(self),
            r matches Ok(m) ==> {
                &&& *final(self) == (GameBoy { memory: final(self).memory, ..*old(self) })
                &&& final(self).memory == (crate::memory::MappedRAM {
                    switchable_ram: final(self).memory.switchable_ram,
                    ..old(self).memory
                })
                &&& final(self).memory.switchable_ram@.len() == m.ram_size
                &&& forall|i: int| 0 <= i < m.ram_size
                    ==> final(self).memory.switchable_ram@[i] == 0u8
            },
    {
        if self.memory.cartridge.len() < 0x150 {
            return Err(CartError::CartridgeTooShort);
        }
        let tb = self.memory.cartridge[0x147];
        let rb = self.memory.cartridge[0x148];
        let ab = self.memory.cartridge[0x149];

        let cartridge_type: CartridgeType;
        let has_battery: bool;
        let has_ram: bool;
        if tb == 0x00 { cartridge_type = CartridgeType::NoMBC; has_battery = false; has_ram = false; }
        else if tb == 0x01 { cartridge_type = CartridgeType::MBC1; has_battery = false; has_ram = false; }
        else if tb == 0x02 { cartridge_type = CartridgeType::MBC1; has_battery = false; has_ram = true; }
        else if tb == 0x03 { cartridge_type = CartridgeType::MBC1; has_battery = true; has_ram = true; }
        else if tb == 0x11 { cartridge_type = CartridgeType::MBC3; has_battery = false; has_ram = false; }
        else if tb == 0x12 { cartridge_type = CartridgeType::MBC3; has_battery = false; has_ram = true; }
        else if tb == 0x13 { cartridge_type = CartridgeType::MBC3; has_battery = true; has_ram = true; }
        else if tb == 0x1A { cartridge_type = CartridgeType::MBC5; has_battery = false; has_ram = true; }
        else if tb == 0x1B { cartridge_type = CartridgeType::MBC5; has_battery = true; has_ram = true; }
        else { return Err(CartError::UnsupportedCartridgeType); }

        let rom_size: usize;
        if rb == 0 { rom_size = 32768; }
        else if rb == 1 { rom_size = 65536; }
        else if rb == 2 { rom_size = 131072; }
        else if rb == 3 { rom_size = 262144; }
        else if rb == 4 { rom_size = 524288; }
        else if rb == 5 { rom_size = 1048576; }
        else if rb == 6 { rom_size = 2097152; }
        else if rb == 7 { rom_size = 4194304; }
        else if rb == 8 { rom_size = 8388608; }
        else if 0x52 <= rb && rb <= 0x54 { return Err(CartError::UnsupportedRomSize); }
        else { return Err(CartError::InvalidRomSize); }

        let ram_size: usize;
        if ab == 0 { ram_size = 0; }
        else if ab == 2 { ram_size = 8192; }
        else if ab == 3 { ram_size = 32768; }
        else if ab == 4 { ram_size = 131072; }
        else if ab == 5 { ram_size = 65536; }
        else if ab == 1 { return Err(CartError::UnsupportedRamSize); }
        else { return Err(CartError::InvalidRamSize); }

        self.memory.switchable_ram = crate::util::zero_vec(ram_size);

        Ok(MBC {
            cartridge_type,
            rom_size,
            ram_size,
            has_battery,
            has_ram,
            ram_enabled: false,
            rom_bank_number: 1,
            ram_bank_number: 0,
            banking_mode_1_select: false,
            rom_bank_high: 0,
            rom_bank_low: 0,
        })
    }
}

} // verus!

