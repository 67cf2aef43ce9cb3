//! Device-level checks: the bus, the boot ROM overlay, the timer, the
//! interrupt controller, the renderer's frame schedule and the
//! cartridge header decoder.

use dmg::display::{DisplayBuf, NullRenderer, Renderer};
use dmg::gb::init;
use dmg::header::{Destination, NewLicensee, OldLicensee};
use dmg::mbc::CartError;

fn header_cart(cart_type: u8, rom_byte: u8, ram_byte: u8) -> Vec<u8> {
    let mut cart = vec![0u8; 0x8000];
    cart[0x147] = cart_type;
    cart[0x148] = rom_byte;
    cart[0x149] = ram_byte;
    cart
}

#[test]
fn boot_rom_overlay_and_unmap() {
    let mut gb = init();
    let mut boot = vec![0u8; 256];
    boot[0] = 0x00;
    boot[1] = 0x31;
    boot[2] = 0xFE;
    boot[3] = 0xFF;
    gb.load_boot_rom(&boot);
    let mut cart = vec![0u8; 0x8000];
    cart[0] = 0xAA;
    cart[1] = 0xBB;
    gb.load_cartridge(cart);
    assert_eq!(gb.read(0x0000), 0x00);
    assert_eq!(gb.read(0x0001), 0x31);
    assert_eq!(gb.read(0x0002), 0xFE);
    gb.write(0xFF50, 1);
    assert_eq!(gb.read(0x0000), 0xAA);
    assert_eq!(gb.read(0x0001), 0xBB);
    // the unmap is permanent: writing zero does not bring it back
    gb.write(0xFF50, 0);
    assert_eq!(gb.read(0x0000), 0xAA);
}

#[test]
fn echo_ram_mirrors_work_ram() {
    let mut gb = init();
    gb.write(0xC123, 0x55);
    assert_eq!(gb.read(0xE123), 0x55);
    gb.write(0xE200, 0x66);
    assert_eq!(gb.read(0xC200), 0x66);
}

#[test]
fn prohibited_region_reads_ff() {
    let mut gb = init();
    gb.write(0xFEA5, 0x12);
    assert_eq!(gb.read(0xFEA5), 0xFF);
    assert_eq!(gb.read(0xFF7C), 0xFF); // unmapped I/O register
}

#[test]
fn div_register_resets_divider() {
    let mut gb = init();
    gb.test_mode = true;
    for _ in 0..100 {
        gb.tick();
    }
    assert!(gb.r.div_16 > 0);
    gb.write(0xFF04, 0x55);
    assert_eq!(gb.r.div_16, 0);
    assert_eq!(gb.read(0xFF04), 0);
}

#[test]
fn timer_overflow_reloads_tma_and_requests_interrupt() {
    let mut gb = init();
    gb.test_mode = true;
    gb.write(0xFF07, 0x05); // enable, 262144 Hz tap (bit 3)
    gb.write(0xFF06, 0xAB); // TMA
    gb.write(0xFF05, 0xFF); // TIMA
    let mut steps = 0;
    while gb.read(0xFF05) != 0xAB && steps < 100 {
        gb.tick();
        steps += 1;
    }
    assert_eq!(gb.read(0xFF05), 0xAB);
    assert_eq!(gb.read(0xFF0F) & 0x04, 0x04);
}

#[test]
fn tima_write_cancels_reload() {
    let mut gb = init();
    gb.test_mode = true;
    gb.write(0xFF07, 0x05);
    gb.write(0xFF06, 0xAB);
    gb.write(0xFF05, 0xFF);
    // run until the overflow opened the reload window, then cancel it
    let mut steps = 0;
    while gb.read(0xFF05) != 0x00 && steps < 100 {
        gb.tick();
        steps += 1;
    }
    gb.write(0xFF05, 0x77);
    for _ in 0..8 {
        gb.tick();
    }
    assert_ne!(gb.read(0xFF05), 0xAB);
}

#[test]
fn ly_coincidence_dispatches_to_48() {
    let mut gb = init();
    gb.load_cartridge(vec![0u8; 0x8000]); // a sled of NOPs for the CPU
    gb.write(0xFF40, 0x80); // LCD on
    gb.write(0xFF45, 40); // LYC
    gb.write(0xFF41, 0x40); // STAT bit 6: coincidence interrupt enable
    gb.write(0xFFFF, 0x02); // IE: LCD STAT
    gb.write(0xFF0F, 0x00);
    gb.ime = true;
    gb.r.sp = 0xFFFE;
    let mut fired = false;
    let mut steps: u64 = 0;
    while steps < 60000 {
        gb.tick();
        steps += 1;
        if gb.read(0xFF0F) & 0x02 != 0 {
            fired = true;
        }
        if fired && gb.r.pc == 0x48 {
            break;
        }
    }
    assert!(fired);
    assert_eq!(gb.r.pc, 0x48);
    assert!(!gb.ime);
    assert_eq!(gb.r.sp, 0xFFFC); // two bytes of PC on the stack
    assert_eq!(gb.r.ly, 40);
}

#[test]
fn ly_stays_within_frame_range() {
    let mut gb = init();
    gb.load_cartridge(vec![0u8; 0x8000]); // a sled of NOPs for the CPU
    gb.write(0xFF40, 0x80);
    for _ in 0..40000 {
        gb.tick();
        assert!(gb.r.ly <= 153);
    }
}

#[test]
fn stat_mode_follows_phase_schedule() {
    let mut gb = init();
    gb.load_cartridge(vec![0u8; 0x8000]); // a sled of NOPs for the CPU
    gb.write(0xFF40, 0x80);
    for _ in 0..(3 * 114) {
        gb.tick();
        let phase = gb.clock % 114;
        let mode = gb.r.stat & 3;
        if phase == 1 && gb.r.ly < 144 {
            assert_eq!(mode, 2);
        } else if phase == 21 && gb.r.ly <= 144 {
            assert_eq!(mode, 3);
        } else if phase == 64 {
            assert_eq!(mode, 0);
        }
    }
}

#[test]
fn one_buffer_swap_per_frame() {
    let mut gb = init();
    gb.load_cartridge(vec![0u8; 0x8000]); // a sled of NOPs for the CPU
    gb.write(0xFF40, 0x80);
    let mut swaps = 0;
    let mut last = gb.backbuf_id;
    // one frame of the schedule: 144 lines of 114 cycles after the swap line
    for _ in 0..(145 * 114) {
        gb.tick();
        if gb.backbuf_id != last {
            swaps += 1;
            last = gb.backbuf_id;
        }
    }
    assert_eq!(swaps, 1);
}

#[test]
fn oam_dma_copies_source_page() {
    let mut gb = init();
    for i in 0..160u16 {
        gb.write(0xC000 + i, (i as u8).wrapping_mul(3));
    }
    gb.write(0xFF46, 0xC0);
    for i in 0..160u16 {
        assert_eq!(gb.read(0xFE00 + i), (i as u8).wrapping_mul(3));
    }
}

#[test]
fn joypad_select_and_press() {
    let mut gb = init();
    gb.write(0xFF00, 0x10); // bit 4 set selects the SSBA bank here
    assert_eq!(gb.read(0xFF00) & 0x0F, 0x0F); // nothing pressed
    gb.press_key(0); // A
    assert_eq!(gb.read(0xFF00) & 0x0F, 0x0E);
    assert_eq!(gb.read(0xFF0F) & 0x10, 0x10); // joypad interrupt requested
    gb.unpress_key(0);
    assert_eq!(gb.read(0xFF00) & 0x0F, 0x0F);
}

#[test]
fn background_palette_mapping() {
    let mut gb = init();
    gb.write(0xFF47, 0b1110_0100); // identity palette
    for i in 0..4u8 {
        assert_eq!(gb.map_background_palette(i), i);
    }
    gb.write(0xFF48, 0b0001_1011); // reversed sprite palette
    for i in 0..4u8 {
        assert_eq!(gb.map_sprite_palette(0, i), 3 - i);
    }
}

#[test]
fn mbc1_rom_banking() {
    let mut gb = init();
    let mut cart = header_cart(0x01, 0x01, 0x00); // MBC1, 64 KiB
    let mut big = vec![0u8; 0x10000];
    big[..0x8000].copy_from_slice(&cart[..0x8000]);
    big[0x147] = 0x01;
    big[0x148] = 0x01;
    big[2 * 0x4000] = 0xB2; // first byte of bank 2
    big[3 * 0x4000] = 0xB3; // first byte of bank 3
    cart = big;
    gb.load_cartridge(cart);
    gb.mbc = gb.detect_mbc().unwrap();
    gb.write(0x2000, 2);
    assert_eq!(gb.read(0x4000), 0xB2);
    gb.write(0x2000, 3);
    assert_eq!(gb.read(0x4000), 0xB3);
}

#[test]
fn mbc1_ram_enable_gate() {
    let mut gb = init();
    let cart = header_cart(0x03, 0x00, 0x02); // MBC1 + 8 KiB RAM + battery
    gb.load_cartridge(cart);
    gb.mbc = gb.detect_mbc().unwrap();
    gb.write(0xA000, 0x42);
    assert_eq!(gb.read(0xA000), 0xFF); // RAM still disabled
    gb.write(0x0000, 0x0A); // enable
    gb.write(0xA000, 0x42);
    assert_eq!(gb.read(0xA000), 0x42);
    gb.write(0x0000, 0x00); // disable again
    assert_eq!(gb.read(0xA000), 0xFF);
}

#[test]
fn header_decode_fields() {
    let mut gb = init();
    let mut cart = header_cart(0x01, 0x00, 0x00);
    let title = b"SUPERGAME";
    cart[0x134..0x134 + title.len()].copy_from_slice(title);
    cart[0x144] = b'0';
    cart[0x145] = b'1';
    cart[0x146] = 0x03;
    cart[0x14A] = 0x01;
    cart[0x14B] = 0x33;
    cart[0x14C] = 0x07;
    gb.load_cartridge(cart);
    let h = gb.decode_cart_header().unwrap();
    assert_eq!(&h.title[..9], title);
    assert!(matches!(h.new_licensee, NewLicensee::NintendoRD1));
    assert!(h.sgb_flag);
    assert!(matches!(h.destination, Destination::RestOfWorld));
    assert!(matches!(h.old_licensee, OldLicensee::UseNewLicenseeCode));
    assert_eq!(h.version_number, 7);
    assert!(matches!(h.mbc.cartridge_type, dmg::mbc::CartridgeType::MBC1));
    assert_eq!(h.mbc.rom_size, 32768);
}

#[test]
fn header_errors() {
    let mut gb = init();
    gb.load_cartridge(vec![0u8; 0x100]);
    assert_eq!(gb.decode_cart_header().unwrap_err(), CartError::CartridgeTooShort);

    gb.load_cartridge(header_cart(0x99, 0x00, 0x00));
    assert_eq!(gb.detect_mbc().unwrap_err(), CartError::UnsupportedCartridgeType);

    gb.load_cartridge(header_cart(0x01, 0x52, 0x00));
    assert_eq!(gb.detect_mbc().unwrap_err(), CartError::UnsupportedRomSize);

    gb.load_cartridge(header_cart(0x01, 0x30, 0x00));
    assert_eq!(gb.detect_mbc().unwrap_err(), CartError::InvalidRomSize);

    gb.load_cartridge(header_cart(0x01, 0x00, 0x01));
    assert_eq!(gb.detect_mbc().unwrap_err(), CartError::UnsupportedRamSize);

    gb.load_cartridge(header_cart(0x01, 0x00, 0x09));
    assert_eq!(gb.detect_mbc().unwrap_err(), CartError::InvalidRamSize);
}

#[test]
fn licensee_tables() {
    assert!(matches!(NewLicensee::from_ascii_code("00"), NewLicensee::NoPublisher));
    assert!(matches!(NewLicensee::from_ascii_code("A4"), NewLicensee::Konami));
    assert!(matches!(NewLicensee::from_ascii_code("zz"), NewLicensee::Unknown));
    assert!(matches!(NewLicensee::from_ascii_code(""), NewLicensee::Unknown));
    assert!(matches!(NewLicensee::from_bytes(&[b'9', b'H']), NewLicensee::BottomUp));
    assert!(matches!(OldLicensee::from_byte(0xB4), OldLicensee::SquareEnix));
    assert!(matches!(OldLicensee::from_byte(0x33), OldLicensee::UseNewLicenseeCode));
    assert!(matches!(OldLicensee::from_byte(0x02), OldLicensee::Unknown));
}

#[test]
fn display_buffers() {
    let buf = DisplayBuf::new(160, 144);
    assert_eq!(buf.frame.len(), 160 * 144);
    let again = buf.new_from_this();
    assert_eq!(again.width, 160);
    assert_eq!(again.height, 144);
    let mut null = NullRenderer::new(160, 144).unwrap();
    assert!(null.update());
    assert_eq!(null.buffer_mut().frame.len(), 160 * 144);
}

#[test]
fn ei_enable_is_delayed_and_di_cancels() {
    let mut gb = init();
    gb.test_mode = true;
    gb.memory.mapping_type = dmg::memory::MappingType::Flat;
    gb.r.pc = 0x100;
    gb.write(0x100, 0xFB); // EI
    gb.write(0x101, 0x00); // NOP
    gb.write(0x102, 0x00); // NOP
    gb.tick(); // EI executes
    assert!(!gb.ime);
    gb.tick();
    gb.tick();
    assert!(gb.ime);
}
