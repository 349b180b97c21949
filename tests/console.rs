use znes::cartridge::{get_mapper, AnyMapper, Cartridge, DecodeError, Mapper, Mirror};
use znes::controller::Controller;
use znes::cpu::status::Status;
use znes::cpu::{Interrupt, Mode, StepInfo};
use znes::nes::NES;
use znes::ppu::PPU;

/// An iNES image with `prg` 16 KiB banks filled by `fill(bank, offset)` and
/// `chr` 8 KiB banks whose bytes give their bank number.
fn image(prg: usize, chr: usize, flags6: u8, flags7: u8, fill: impl Fn(usize, usize) -> u8) -> Vec<u8> {
    let mut b = vec![0x4e, 0x45, 0x53, 0x1a, prg as u8, chr as u8, flags6, flags7];
    b.resize(16, 0);
    for bank in 0..prg {
        for offset in 0..0x4000 {
            b.push(fill(bank, offset));
        }
    }
    for bank in 0..chr {
        b.extend(std::iter::repeat(bank as u8).take(0x2000));
    }
    b
}

/// A one-bank NROM program: `code` at $8000, reset vector $8000, NMI vector $9000.
fn program(code: &[u8]) -> Vec<u8> {
    image(1, 1, 0, 0, |_, o| {
        if o < code.len() {
            code[o]
        } else if o == 0x3ffc {
            0x00
        } else if o == 0x3ffd {
            0x80
        } else if o == 0x3ffa {
            0x00
        } else if o == 0x3ffb {
            0x90
        } else if o == 0x1000 {
            0xea
        } else {
            0xea
        }
    })
}

fn console(code: &[u8]) -> NES {
    NES::new(program(code), String::from("game.nes"), 1).ok().unwrap()
}

#[test]
fn reset_vector() {
    let nes = console(&[]);
    assert_eq!(nes.cpu.pc, 0x8000);
    assert_eq!(nes.cpu.sp, 0xfd);
    // P = $24: only I set; bit 5 has no storage and reads back clear
    assert_eq!(nes.cpu.p, Status::from(0x24));
    assert!(nes.cpu.p.interrupt);
    assert_eq!(u8::from(nes.cpu.p), 0x24 & 0xcf);
}

#[test]
fn nrom_window_aliasing() {
    let rom = image(1, 1, 0, 0, |_, o| if o == 0x1234 { 0xab } else { 0 });
    let mut nes = NES::new(rom, String::from("a.nes"), 1).ok().unwrap();
    assert_eq!(nes.cpu.read(0x9234), 0xab);
    assert_eq!(nes.cpu.read(0xd234), 0xab);
}

#[test]
fn nrom_two_banks() {
    let rom = image(2, 1, 0, 0, |bank, o| (bank as u8) * 0x10 + (o % 7) as u8);
    let mut nes = NES::new(rom, String::from("a.nes"), 1).ok().unwrap();
    assert_eq!(nes.cpu.read(0x8003), 3);
    assert_eq!(nes.cpu.read(0xc003), 0x13);
    assert_eq!(nes.cpu.read(0xffff), 0x10 + (0x3fff % 7) as u8);
}

#[test]
fn adc_with_overflow() {
    let mut nes = console(&[0x69, 0x50]);
    nes.cpu.a = 0x50;
    nes.cpu.p.carry = false;
    let cycles = nes.cpu.step();
    assert_eq!(nes.cpu.a, 0xa0);
    assert!(nes.cpu.p.negative);
    assert!(nes.cpu.p.overflow);
    assert!(!nes.cpu.p.carry);
    assert!(!nes.cpu.p.zero);
    assert_eq!(cycles, 2);
    assert_eq!(nes.cpu.pc, 0x8002);
}

#[test]
fn adc_carry_out() {
    let mut nes = console(&[0x69, 0x01]);
    nes.cpu.a = 0xff;
    nes.cpu.step();
    assert_eq!(nes.cpu.a, 0x00);
    assert!(nes.cpu.p.carry);
    assert!(nes.cpu.p.zero);
    assert!(!nes.cpu.p.overflow);
}

#[test]
fn sbc_borrow() {
    // SEC; SBC #$01 from 0x00 -> 0xFF with borrow (carry clear)
    let mut nes = console(&[0x38, 0xe9, 0x01]);
    nes.cpu.a = 0x00;
    nes.cpu.step();
    nes.cpu.step();
    assert_eq!(nes.cpu.a, 0xff);
    assert!(!nes.cpu.p.carry);
    assert!(nes.cpu.p.negative);
    // SEC; SBC #$10 from 0x50 -> 0x40, no borrow
    let mut nes = console(&[0x38, 0xe9, 0x10]);
    nes.cpu.a = 0x50;
    nes.cpu.step();
    nes.cpu.step();
    assert_eq!(nes.cpu.a, 0x40);
    assert!(nes.cpu.p.carry);
}

#[test]
fn lsr_carry_from_bit_zero() {
    let mut nes = console(&[0x4a]);
    nes.cpu.a = 0x81;
    nes.cpu.step();
    assert_eq!(nes.cpu.a, 0x40);
    assert!(nes.cpu.p.carry);
}

#[test]
fn oam_dma_stall_even() {
    let mut nes = console(&[]);
    assert_eq!(nes.cpu.cycles % 2, 0);
    for i in 0..256 {
        nes.cpu.write(0x200 + i, 0);
    }
    nes.cpu.write(0x4014, 0x02);
    assert!(nes.cpu.ppu.oam_data.iter().all(|b| *b == 0));
    let mut total = 0;
    while nes.cpu.dma_delay > 0 {
        total += nes.cpu.step();
    }
    assert_eq!(total, 513);
}

#[test]
fn oam_dma_stall_odd() {
    let mut nes = console(&[]);
    nes.cpu.cycles = 7;
    nes.cpu.write(0x4014, 0x02);
    let mut total = 0;
    while nes.cpu.dma_delay > 0 {
        total += nes.cpu.step();
    }
    assert_eq!(total, 514);
}

#[test]
fn oam_dma_copies_page() {
    let mut nes = console(&[]);
    for i in 0..256 {
        nes.cpu.write(0x300 + i, i as u8 ^ 0x5a);
    }
    nes.cpu.write(0x4014, 0x03);
    for i in 0..256 {
        assert_eq!(nes.cpu.ppu.oam_data[i], i as u8 ^ 0x5a);
    }
}

#[test]
fn controller_latch() {
    let mut nes = console(&[]);
    nes.cpu.write(0x4016, 1);
    nes.poll_inputs(0b1010_0101);
    nes.cpu.write(0x4016, 0);
    let bits: Vec<u8> = (0..8).map(|_| nes.cpu.read(0x4016)).collect();
    assert_eq!(bits, vec![1, 0, 1, 0, 0, 1, 0, 1]);
    // past the eighth bit every read gives 1
    for _ in 0..300 {
        assert_eq!(nes.cpu.read(0x4016), 1);
    }
}

#[test]
fn controller_strobe_high_repeats_a() {
    let mut c = Controller::new();
    c.set_buttons(0b0000_0001);
    c.write(1);
    assert_eq!(c.read(), 1);
    assert_eq!(c.read(), 1);
    c.write(0);
    assert_eq!(c.read(), 1);
    assert_eq!(c.read(), 0);
}

#[test]
fn vblank_nmi() {
    let mut nes = console(&[]);
    nes.cpu.ppu.timing.scanline = 241;
    nes.cpu.ppu.timing.cycle = 10;
    nes.cpu.ppu.status.in_vblank = true;
    nes.cpu.write(0x2000, 0x80);
    assert!(!nes.cpu.ppu.nmi.trigger_nmi);
    nes.step_ppu();
    assert!(nes.cpu.ppu.nmi.trigger_nmi);
    let cycles = nes.cpu.step();
    // the handler at $9000 is a NOP: 7 cycles of NMI entry plus 2
    assert_eq!(cycles, 9);
    assert_eq!(nes.cpu.pc, 0x9001);
    assert!(!nes.cpu.ppu.nmi.trigger_nmi);
    assert!(nes.cpu.p.interrupt);
}

#[test]
fn ram_mirrors() {
    let mut nes = console(&[]);
    nes.cpu.write(0x0123, 0x77);
    assert_eq!(nes.cpu.read(0x0923), 0x77);
    assert_eq!(nes.cpu.read(0x1123), 0x77);
    assert_eq!(nes.cpu.read(0x1923), 0x77);
    nes.cpu.write(0x1fff, 0x11);
    assert_eq!(nes.cpu.read(0x07ff), 0x11);
}

#[test]
fn palette_mirror() {
    let mut nes = console(&[]);
    for (addr, mirror) in [(0x3f10u16, 0x3f00u16), (0x3f14, 0x3f04), (0x3f18, 0x3f08), (0x3f1c, 0x3f0c)] {
        nes.cpu.write(0x2006, (addr >> 8) as u8);
        nes.cpu.write(0x2006, (addr & 0xff) as u8);
        nes.cpu.write(0x2007, 0x2a);
        assert_eq!(nes.cpu.ppu.read(&nes.cpu.mapper, mirror as usize), 0x2a);
        assert_eq!(nes.cpu.ppu.read(&nes.cpu.mapper, addr as usize), 0x2a);
    }
}

#[test]
fn ppuaddr_then_ppudata() {
    let mut nes = console(&[]);
    let _ = nes.cpu.read(0x2002);
    nes.cpu.write(0x2006, 0x23);
    nes.cpu.write(0x2006, 0x45);
    assert_eq!(nes.cpu.ppu.scroll.v, 0x2345);
    nes.cpu.write(0x2007, 0x99);
    assert_eq!(nes.cpu.ppu.scroll.v, 0x2346);
    nes.cpu.write(0x2006, 0x23);
    nes.cpu.write(0x2006, 0x45);
    let _stale = nes.cpu.read(0x2007);
    assert_eq!(nes.cpu.ppu.scroll.v, 0x2346);
    assert_eq!(nes.cpu.ppu.read_buffer_data, 0x99);
    // the high address byte is masked to six bits; +32 mode
    nes.cpu.write(0x2000, 0x04);
    nes.cpu.write(0x2006, 0xe3);
    nes.cpu.write(0x2006, 0x45);
    assert_eq!(nes.cpu.ppu.scroll.v, 0x2345);
    let _ = nes.cpu.read(0x2007);
    assert_eq!(nes.cpu.ppu.scroll.v, 0x2365);
    assert_eq!(nes.cpu.read(0x2007), 0x99);
}

#[test]
fn push_pop_round_trip() {
    let mut nes = console(&[]);
    let sp = nes.cpu.sp;
    nes.cpu.push(0x42);
    assert_eq!(nes.cpu.sp, sp.wrapping_sub(1));
    assert_eq!(nes.cpu.pop(), 0x42);
    assert_eq!(nes.cpu.sp, sp);
    nes.cpu.push_u16(0xbeef);
    assert_eq!(nes.cpu.pop_u16(), 0xbeef);
    assert_eq!(nes.cpu.sp, sp);
}

#[test]
fn status_round_trip() {
    for b in 0..=255u8 {
        assert_eq!(Status::from(b).to_u8(), b & 0xcf);
    }
    assert_eq!(Status::new().to_u8(), 0);
}

#[test]
fn php_plp_bits() {
    // PHP; PLA
    let mut nes = console(&[0x08, 0x68]);
    nes.cpu.step();
    nes.cpu.step();
    assert_eq!(nes.cpu.a, 0x34);
}

#[test]
fn jsr_rts() {
    // JSR $8005; BRK pad; at $8005: RTS
    let mut nes = console(&[0x20, 0x05, 0x80, 0xea, 0xea, 0x60]);
    assert_eq!(nes.cpu.step(), 6);
    assert_eq!(nes.cpu.pc, 0x8005);
    nes.cpu.step();
    assert_eq!(nes.cpu.pc, 0x8003);
}

#[test]
fn branch_taken_and_page_cross() {
    // BNE +2 with Z clear: taken, same page: 2 + 1 cycles
    let mut nes = console(&[0xd0, 0x02]);
    nes.cpu.p.zero = false;
    assert_eq!(nes.cpu.step(), 3);
    assert_eq!(nes.cpu.pc, 0x8004);
    // BEQ with Z clear: not taken
    let mut nes = console(&[0xf0, 0x02]);
    nes.cpu.p.zero = false;
    assert_eq!(nes.cpu.step(), 2);
    assert_eq!(nes.cpu.pc, 0x8002);
    // BNE -4 from $8002: target $7FFE is in another page: 2 + 1 + 2
    let mut nes = console(&[0xd0, 0xfc]);
    nes.cpu.p.zero = false;
    assert_eq!(nes.cpu.step(), 5);
    assert_eq!(nes.cpu.pc, 0x7ffe);
}

#[test]
fn compare_flags() {
    let mut nes = console(&[0xc9, 0x10]);
    nes.cpu.a = 0x10;
    nes.cpu.step();
    assert!(nes.cpu.p.carry && nes.cpu.p.zero && !nes.cpu.p.negative);
    let mut nes = console(&[0xc9, 0x20]);
    nes.cpu.a = 0x10;
    nes.cpu.step();
    assert!(!nes.cpu.p.carry && !nes.cpu.p.zero && nes.cpu.p.negative);
}

#[test]
fn handlers_directly() {
    let mut nes = console(&[]);
    nes.cpu.write(0x10, 0x80);
    nes.cpu.asl(StepInfo { address: 0x10, mode: Mode::ZPG });
    assert_eq!(nes.cpu.read(0x10), 0x00);
    assert!(nes.cpu.p.carry && nes.cpu.p.zero);
    nes.cpu.rol(StepInfo { address: 0x10, mode: Mode::ZPG });
    assert_eq!(nes.cpu.read(0x10), 0x01);
    nes.cpu.ror(StepInfo { address: 0x10, mode: Mode::ZPG });
    assert_eq!(nes.cpu.read(0x10), 0x00);
    assert!(nes.cpu.p.carry);
    nes.cpu.inc(StepInfo { address: 0x10, mode: Mode::ZPG });
    assert_eq!(nes.cpu.read(0x10), 0x01);
    nes.cpu.dec(StepInfo { address: 0x10, mode: Mode::ZPG });
    nes.cpu.dec(StepInfo { address: 0x10, mode: Mode::ZPG });
    assert_eq!(nes.cpu.read(0x10), 0xff);
    assert!(nes.cpu.p.negative);
    nes.cpu.x = 0xff;
    nes.cpu.inx(StepInfo { address: 0, mode: Mode::IMP });
    assert_eq!(nes.cpu.x, 0);
    assert!(nes.cpu.p.zero);
}

#[test]
fn decode_errors() {
    let mut bad = program(&[]);
    bad[0] = 0;
    assert!(matches!(get_mapper(bad, String::new()), Err(DecodeError::BadSignature)));
    let short = program(&[])[..100].to_vec();
    assert!(matches!(get_mapper(short, String::new()), Err(DecodeError::Truncated)));
    assert!(matches!(get_mapper(vec![0x4e, 0x45], String::new()), Err(DecodeError::Truncated)));
    let none = image(0, 0, 0, 0, |_, _| 0);
    assert!(matches!(get_mapper(none, String::new()), Err(DecodeError::NoPrgRom)));
    let mmc3 = image(1, 1, 0x40, 0, |_, _| 0);
    assert!(matches!(get_mapper(mmc3, String::new()), Err(DecodeError::UnsupportedMapper(4))));
    let high = image(1, 1, 0, 0x10, |_, _| 0);
    assert!(matches!(get_mapper(high, String::new()), Err(DecodeError::UnsupportedMapper(16))));
}

#[test]
fn header_fields() {
    let rom = image(2, 1, 0x07, 0, |_, _| 0);
    let mut with_trainer = rom[..16].to_vec();
    with_trainer.extend(vec![0u8; 512]);
    with_trainer.extend(rom[16..].to_vec());
    let cart = Cartridge::new(with_trainer, String::from("x.nes")).ok().unwrap();
    assert_eq!(cart.header.prg_rom_size, 2);
    assert_eq!(cart.header.chr_rom_size, 1);
    assert!(cart.header.battery_backed_ram);
    assert!(cart.header.trainer);
    assert!(matches!(cart.header.mirror, Mirror::Vertical));
    assert_eq!(cart.mapper, 0);
    let four = Cartridge::new(image(1, 0, 0x08, 0, |_, _| 0), String::new()).ok().unwrap();
    assert!(matches!(four.header.mirror, Mirror::Four));
}

#[test]
fn uxrom_bank_switch() {
    let rom = image(4, 0, 0x20, 0, |bank, _| bank as u8);
    let mut m = get_mapper(rom, String::new()).ok().unwrap();
    assert!(matches!(m, AnyMapper::Uxrom(_)));
    assert_eq!(m.read(0x8000), 0);
    assert_eq!(m.read(0xc000), 3);
    m.write(0x8000, 2);
    assert_eq!(m.read(0x8000), 2);
    assert_eq!(m.read(0xffff), 3);
    // CHR RAM
    m.write(0x0010, 0x5c);
    assert_eq!(m.read(0x0010), 0x5c);
}

#[test]
fn cnrom_bank_switch() {
    let rom = image(1, 4, 0x30, 0, |_, _| 0);
    let mut m = get_mapper(rom, String::new()).ok().unwrap();
    assert!(matches!(m, AnyMapper::Cnrom(_)));
    assert_eq!(m.read(0x0000), 0);
    m.write(0x8000, 0xfe);
    assert_eq!(m.read(0x0000), 2);
    m.write(0xffff, 3);
    assert_eq!(m.read(0x1fff), 3);
    // CHR ROM is read-only
    m.write(0x0000, 0x77);
    assert_eq!(m.read(0x0000), 3);
}

fn mmc1_serial(m: &mut AnyMapper, address: usize, value: u8) {
    for i in 0..5 {
        m.write(address, (value >> i) & 1);
    }
}

#[test]
fn mmc1_registers() {
    let rom = image(4, 0, 0x12, 0, |bank, _| bank as u8);
    let mut m = get_mapper(rom, String::new()).ok().unwrap();
    assert!(matches!(m, AnyMapper::Mmc1(_)));
    // power-up: last bank fixed at $C000
    assert_eq!(m.read(0xc000), 3);
    assert_eq!(m.read(0x8000), 0);
    mmc1_serial(&mut m, 0xe000, 2);
    assert_eq!(m.read(0x8000), 2);
    // control: mode 2 (fixed first bank), vertical mirroring
    mmc1_serial(&mut m, 0x8000, 0b01010);
    assert!(matches!(m.get_mirror(), Mirror::Vertical));
    assert_eq!(m.read(0x8000), 0);
    assert_eq!(m.read(0xc000), 2);
    // mode 0: 32 KiB at (bank & !1)
    mmc1_serial(&mut m, 0x8000, 0b00011);
    assert!(matches!(m.get_mirror(), Mirror::Horizontal));
    mmc1_serial(&mut m, 0xe000, 3);
    assert_eq!(m.read(0x8000), 2);
    assert_eq!(m.read(0xc000), 3);
    // a write with bit 7 resets the shift register and sets PRG mode 3
    m.write(0x8000, 1);
    m.write(0x8000, 0x80);
    assert_eq!(m.read(0xc000), 3);
    // PRG RAM and battery
    m.write(0x6001, 0x44);
    assert_eq!(m.read(0x7fff - 0x1ffe), 0x44);
    let saved = m.save_battery().unwrap();
    assert_eq!(saved.len(), 0x2000);
    assert_eq!(saved[1], 0x44);
    let mut data = vec![0u8; 0x2000];
    data[5] = 9;
    m.load_battery(&data);
    assert_eq!(m.read(0x6005), 9);
}

#[test]
fn no_battery_without_flag() {
    let mut nes = console(&[]);
    assert!(nes.save_battery().is_none());
    nes.load_battery(&vec![1u8; 0x2000]);
    assert!(nes.save_battery().is_none());
}

#[test]
fn scroll_increments() {
    let mut ppu = PPU::new();
    ppu.scroll.v = 0x001f;
    ppu.increment_coarse_x();
    assert_eq!(ppu.scroll.v, 0x0400);
    ppu.scroll.v = 0x0005;
    ppu.increment_coarse_x();
    assert_eq!(ppu.scroll.v, 0x0006);
    ppu.scroll.v = 0x7000 | (29 << 5);
    ppu.increment_y();
    assert_eq!(ppu.scroll.v, 0x0800);
    ppu.scroll.v = 0x7000 | (31 << 5);
    ppu.increment_y();
    assert_eq!(ppu.scroll.v, 0x0000);
    ppu.scroll.v = 0x1000;
    ppu.increment_y();
    assert_eq!(ppu.scroll.v, 0x2000);
}

#[test]
fn scroll_register_writes() {
    let mut ppu = PPU::new();
    ppu.write_scroll(0x7d);
    assert_eq!(ppu.scroll.t, 0x000f);
    assert_eq!(ppu.scroll.x, 5);
    ppu.write_scroll(0x5e);
    assert_eq!(ppu.scroll.t, 0x616f);
    ppu.write_control(0x03);
    assert_eq!(ppu.scroll.t & 0x0c00, 0x0c00);
}

#[test]
fn status_read_clears_vblank() {
    let mut ppu = PPU::new();
    ppu.status.in_vblank = true;
    ppu.status.sprite_zero_hit = true;
    ppu.data_buffer = 0xff;
    ppu.scroll.w = 1;
    assert_eq!(ppu.read_status(), 0xdf);
    assert!(!ppu.status.in_vblank);
    assert_eq!(ppu.scroll.w, 0);
    assert_eq!(ppu.read_status(), 0x5f);
}

#[test]
fn end_of_frame_once_per_frame() {
    let mut nes = console(&[]);
    let mut signals = 0;
    let mut at = None;
    let start = nes.cpu.ppu.timing.frame;
    while nes.cpu.ppu.timing.frame == start {
        let (c, l) = (nes.cpu.ppu.timing.cycle, nes.cpu.ppu.timing.scanline);
        nes.step_ppu();
        if nes.cpu.ppu.timing.end_of_frame {
            signals += 1;
            at = Some((c, l));
        }
    }
    assert_eq!(signals, 1);
    assert_eq!(at, Some((256, 240)));
}

#[test]
fn odd_frame_is_one_dot_shorter() {
    let mut ppu = PPU::new();
    let mapper = get_mapper(program(&[]), String::new()).ok().unwrap();
    ppu.write_mask(0x08);
    let mut dots = [0u32; 2];
    for f in 0..2 {
        while ppu.timing.frame == f {
            ppu.step(&mapper);
            dots[f as usize] += 1;
        }
    }
    assert_eq!(dots[0], 341 * 262);
    assert_eq!(dots[1], 341 * 262 - 1);
}

#[test]
fn vblank_flags() {
    let mut ppu = PPU::new();
    let mapper = get_mapper(program(&[]), String::new()).ok().unwrap();
    ppu.timing.scanline = 241;
    ppu.timing.cycle = 1;
    ppu.step(&mapper);
    assert!(ppu.status.in_vblank);
    ppu.status.sprite_overflow = true;
    ppu.timing.scanline = 261;
    ppu.timing.cycle = 1;
    ppu.step(&mapper);
    assert!(!ppu.status.in_vblank);
    assert!(!ppu.status.sprite_overflow);
}

#[test]
fn background_tile_span() {
    let mut ppu = PPU::new();
    ppu.bg.pattern_shift_reg_low = 0x00a5;
    ppu.bg.low_tile_byte = 0x3c;
    ppu.bg.high_tile_byte = 0xff;
    ppu.timing.cycle = 9;
    ppu.load_shift_registers();
    for _ in 0..8 {
        ppu.update_shift_registers();
    }
    assert_eq!(ppu.bg.pattern_shift_reg_low, 0xbd00);
    assert_eq!(ppu.bg.pattern_shift_reg_high, 0xff00);
}

#[test]
fn sprite_evaluation() {
    let mut ppu = PPU::new();
    for i in 0..64 {
        ppu.oam_data[i * 4] = 0xf0;
    }
    for i in 0..10 {
        ppu.oam_data[i * 4 * 3] = 20;
        ppu.oam_data[i * 4 * 3 + 1] = i as u8;
    }
    ppu.timing.scanline = 25;
    ppu.evaluate_sprites();
    assert_eq!(ppu.sprites.count, 8);
    assert!(ppu.status.sprite_overflow);
    assert_eq!(ppu.sprites.indexes[1], 3);
    assert_eq!(ppu.secondary_oam[4 * 2 + 1], 2);
    ppu.timing.scanline = 28;
    ppu.status.sprite_overflow = false;
    ppu.evaluate_sprites();
    assert_eq!(ppu.sprites.count, 0);
    assert!(!ppu.status.sprite_overflow);
}

#[test]
fn rendered_pixel_colour() {
    let mut nes = console(&[]);
    // backdrop colour $21
    nes.cpu.write(0x2006, 0x3f);
    nes.cpu.write(0x2006, 0x00);
    nes.cpu.write(0x2007, 0x21);
    nes.cpu.write(0x2001, 0x0a);
    nes.cpu.ppu.timing.scanline = 0;
    nes.cpu.ppu.timing.cycle = 1;
    nes.step_ppu();
    assert_eq!(&nes.screen_buffer[0..3], &[76, 154, 236]);
}

#[test]
fn scaled_frame() {
    let mut nes = NES::new(program(&[]), String::new(), 2).ok().unwrap();
    assert_eq!(nes.screen_buffer.len(), 256 * 2 * 3 * 240 * 2);
    nes.cpu.write(0x2006, 0x3f);
    nes.cpu.write(0x2006, 0x00);
    nes.cpu.write(0x2007, 0x21);
    nes.cpu.write(0x2001, 0x0a);
    nes.cpu.ppu.timing.scanline = 1;
    nes.cpu.ppu.timing.cycle = 2;
    nes.step_ppu();
    let row = 256 * 2 * 3;
    for (i, j) in [(2usize, 2usize), (2, 3), (3, 2), (3, 3)] {
        assert_eq!(nes.screen_buffer[i * row + j * 3], 76);
    }
    assert_eq!(nes.screen_buffer[2 * row + 4 * 3], 0);
}

#[test]
fn controller_reads_one_after_eight_bits() {
    let mut c = Controller::new();
    c.set_buttons(0);
    c.write(1);
    c.write(0);
    for _ in 0..8 {
        assert_eq!(c.read(), 0);
    }
    for _ in 0..400 {
        assert_eq!(c.read(), 1);
    }
}

#[test]
fn vblank_nmi_fires_once() {
    let mut nes = console(&[]);
    nes.cpu.ppu.timing.scanline = 245;
    nes.cpu.ppu.timing.cycle = 10;
    nes.cpu.ppu.status.in_vblank = true;
    nes.cpu.write(0x2000, 0x80);
    nes.step_ppu();
    assert!(nes.cpu.ppu.nmi.trigger_nmi);
    nes.cpu.step();
    assert!(!nes.cpu.ppu.nmi.trigger_nmi);
    // writing PPUCTRL with bit 7 again while still in vblank arms nothing
    nes.cpu.write(0x2000, 0x80);
    nes.step_ppu();
    nes.step_ppu();
    assert!(!nes.cpu.ppu.nmi.trigger_nmi);
}

#[test]
fn irq_from_slot() {
    // IRQ vector $FFFE/$FFFF holds $EAEA (every unset byte is $EA)
    let mut nes = console(&[]);
    let sp = nes.cpu.sp;
    nes.cpu.interrupt = Some(Interrupt::IRQ);
    let cycles = nes.cpu.step();
    assert_eq!(cycles, 9);
    assert_eq!(nes.cpu.pc, 0xeaeb);
    assert!(nes.cpu.interrupt.is_none());
    assert_eq!(nes.cpu.sp, sp.wrapping_sub(3));
    // pushed flags have bits 4-5 clear
    assert_eq!(nes.cpu.memory[0x100 + sp.wrapping_sub(2) as usize], 0x04);
    assert_eq!(nes.cpu.memory[0x100 + sp as usize], 0x80);
}

#[test]
fn fresh_console() {
    let nes = NES::new(program(&[]), String::new(), 2).ok().unwrap();
    assert!(nes.screen_buffer.iter().all(|b| *b == 0));
    assert_eq!(nes.cpu.ppu.timing.cycle, 0);
    assert_eq!(nes.cpu.ppu.timing.scanline, 0);
    assert_eq!(nes.cpu.cycles, 0);
    assert!(nes.cpu.memory.iter().all(|b| *b == 0));
}

#[test]
fn drawing_keeps_other_bytes() {
    let mut nes = NES::new(program(&[]), String::new(), 2).ok().unwrap();
    for b in nes.screen_buffer.iter_mut() {
        *b = 7;
    }
    nes.cpu.write(0x2006, 0x3f);
    nes.cpu.write(0x2006, 0x00);
    nes.cpu.write(0x2007, 0x21);
    nes.cpu.write(0x2001, 0x0a);
    nes.cpu.ppu.timing.scanline = 1;
    nes.cpu.ppu.timing.cycle = 2;
    nes.step_ppu();
    let row = 256 * 2 * 3;
    let mut changed = 0;
    for (k, b) in nes.screen_buffer.iter().enumerate() {
        if *b != 7 {
            changed += 1;
            let (r, c) = (k / row, (k % row) / 3);
            assert!((2..4).contains(&r) && (2..4).contains(&c));
        }
    }
    assert_eq!(changed, 12);
}
