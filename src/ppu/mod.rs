pub mod registers;
pub mod render;

use vstd::prelude::*;

use crate::cartridge::{AnyMapper, Mapper, Mirror};
use crate::ppu::render::{coarse_x_incremented, lemma_increments_in_range, y_incremented};

verus! {

/// An RGB triple of the 2C02 output palette.
#[derive(Copy, Clone, Debug, PartialEq, Eq, Structural)]
pub struct Color(pub u8, pub u8, pub u8);

/// Dot, scanline and frame counters.
#[derive(Copy, Clone, Debug, PartialEq, Eq, Structural)]
pub struct Timing {
    pub cycle: u16,
    pub scanline: u16,
    pub frame: u64,
    /// Set for the one dot at which a finished frame can be presented.
    pub end_of_frame: bool,
}

/// Current (`v`) and temporary (`t`) VRAM address, fine X scroll, the write
/// toggle `w`, and the frame parity `f`.
#[derive(Copy, Clone, Debug, PartialEq, Eq, Structural)]
pub struct Scroll {
    pub v: u16,
    pub t: u16,
    pub x: u8,
    pub w: u8,
    pub f: u8,
}

/// PPUCTRL ($2000) bits other than NMI enable.
#[derive(Copy, Clone, Debug, PartialEq, Eq, Structural)]
pub struct Control {
    pub flag_nametable: u8,
    /// Add 32 to `v` after a PPUDATA access instead of 1.
    pub increment: bool,
    pub flag_sprite_table: bool,
    pub flag_background_table: bool,
    /// 8x16 sprites instead of 8x8.
    pub flag_sprite_size: bool,
    pub flag_master_slave: bool,
}

/// PPUMASK ($2001).
#[derive(Copy, Clone, Debug, PartialEq, Eq, Structural)]
pub struct Mask {
    pub grayscale: bool,
    pub show_left_background: bool,
    pub show_left_sprites: bool,
    pub show_background: bool,
    pub show_sprites: bool,
    pub red_tint: bool,
    pub blue_tint: bool,
    pub green_tint: bool,
}

/// PPUSTATUS ($2002) flags.
#[derive(Copy, Clone, Debug, PartialEq, Eq, Structural)]
pub struct Flags {
    pub in_vblank: bool,
    pub sprite_zero_hit: bool,
    pub sprite_overflow: bool,
}

/// NMI edge detection.
#[derive(Copy, Clone, Debug, PartialEq, Eq, Structural)]
pub struct Nmi {
    pub nmi_previous: bool,
    /// PPUCTRL bit 7.
    pub nmi_output: bool,
    pub nmi_delay: u8,
    /// Raised one dot after an NMI edge; the CPU takes the NMI on its next step.
    pub trigger_nmi: bool,
}

/// Background pipeline: fetched bytes, pattern and palette shift registers
/// and the palette latch that feeds them.
#[derive(Copy, Clone, Debug, PartialEq, Eq, Structural)]
pub struct Background {
    pub nametable_byte: u8,
    pub attribute_table_byte: u8,
    pub low_tile_byte: u8,
    pub high_tile_byte: u8,
    pub pattern_shift_reg_low: u16,
    pub pattern_shift_reg_high: u16,
    pub palette_shift_reg_low: u8,
    pub palette_shift_reg_high: u8,
    pub palette_latch: u8,
}

/// The eight sprite slots of the current scanline.
pub struct Sprites {
    pub count: usize,
    pub attribute_latches: Vec<u8>,
    pub positions: Vec<u8>,
    pub indexes: Vec<u8>,
    pub pattern_low: Vec<u8>,
    pub pattern_high: Vec<u8>,
}

/// The picture processing unit: counters, scroll registers, VRAM, OAM and
/// the background and sprite pipelines. It reaches the cartridge through the
/// mapper handed to the methods that use the PPU bus.
pub struct PPU {
    pub timing: Timing,
    pub scroll: Scroll,
    pub ctrl: Control,
    pub mask: Mask,
    pub status: Flags,
    pub nmi: Nmi,
    pub bg: Background,
    pub sprites: Sprites,
    /// Two 1 KiB nametables, back to back.
    pub nametable_data: Vec<u8>,
    pub palette_data: Vec<u8>,
    pub oam_data: Vec<u8>,
    pub secondary_oam: Vec<u8>,
    pub oam_address: u8,
    /// The last byte written to any PPU register; PPUSTATUS shows its low 5 bits.
    pub data_buffer: u8,
    pub read_buffer_data: u8,
    pub palette_table: Vec<Color>,
}

/// The 2C02 palette.
pub open spec fn palette_colors() -> Seq<Color> {
    seq![
        Color(84, 84, 84), Color(0, 30, 116), Color(8, 16, 144), Color(48, 0, 136),
        Color(68, 0, 100), Color(92, 0, 48), Color(84, 4, 0), Color(60, 24, 0),
        Color(32, 42, 0), Color(8, 58, 0), Color(0, 64, 0), Color(0, 60, 0),
        Color(0, 50, 60), Color(0, 0, 0), Color(0, 0, 0), Color(0, 0, 0),
        Color(152, 150, 152), Color(8, 76, 196), Color(48, 50, 236), Color(92, 30, 228),
        Color(136, 20, 176), Color(160, 20, 100), Color(152, 34, 32), Color(120, 60, 0),
        Color(84, 90, 0), Color(40, 114, 0), Color(8, 124, 0), Color(0, 118, 40),
        Color(0, 102, 120), Color(0, 0, 0), Color(0, 0, 0), Color(0, 0, 0),
        Color(236, 238, 236), Color(76, 154, 236), Color(120, 124, 236), Color(176, 98, 236),
        Color(228, 84, 236), Color(236, 88, 180), Color(236, 106, 100), Color(212, 136, 32),
        Color(160, 170, 0), Color(116, 196, 0), Color(76, 208, 32), Color(56, 204, 108),
        Color(56, 180, 204), Color(60, 60, 60), Color(0, 0, 0), Color(0, 0, 0),
        Color(236, 238, 236), Color(168, 204, 236), Color(188, 188, 236), Color(212, 178, 236),
        Color(236, 174, 236), Color(236, 174, 212), Color(236, 180, 176), Color(228, 196, 144),
        Color(204, 210, 120), Color(180, 222, 120), Color(168, 226, 144), Color(152, 226, 180),
        Color(160, 214, 228), Color(160, 162, 160), Color(0, 0, 0), Color(0, 0, 0),
    ]
}

/// Index into the two nametables for an address of $2000-$3EFF, or `None`
/// where the arrangement is not emulated (four-screen).
pub open spec fn nametable_index(mirror: Mirror, address: int) -> Option<int> {
    let a = address % 0x1000;
    let table = a / 0x400;
    let offset = a % 0x400;
    match mirror {
        Mirror::Horizontal => Some((table / 2) * 0x400 + offset),
        Mirror::Vertical => Some((table % 2) * 0x400 + offset),
        Mirror::Single0 => Some(offset),
        Mirror::Single1 => Some(0x400 + offset),
        Mirror::Four => None,
    }
}

/// Palette RAM after writing `value` at palette index `a` (0..0x1f): the
/// sprite backdrop entries $10/$14/$18/$1C also land on $00/$04/$08/$0C.
pub open spec fn palette_after_write(p: Seq<u8>, a: int, value: u8) -> Seq<u8> {
    let p1 = if a == 0x10 || a == 0x14 || a == 0x18 || a == 0x1c {
        p.update(a - 0x10, value)
    } else {
        p
    };
    p1.update(a, value)
}

/// The NMI detector once NMI output or vblank may have changed: a rising
/// edge of `nmi_output && in_vblank` arms the one-dot delay.
pub open spec fn nmi_edge(n: Nmi, in_vblank: bool) -> Nmi {
    let nmi = n.nmi_output && in_vblank;
    Nmi {
        nmi_delay: if nmi && !n.nmi_previous {
            1
        } else {
            n.nmi_delay
        },
        nmi_previous: nmi,
        ..n
    }
}

/// The NMI detector after the one-dot delay counts down: reaching zero with
/// NMI output and vblank both set raises the trigger.
pub open spec fn nmi_ticked(n: Nmi, in_vblank: bool) -> Nmi {
    if n.nmi_delay > 0 {
        let d = (n.nmi_delay - 1) as u8;
        Nmi { nmi_delay: d, trigger_nmi: n.trigger_nmi || (d == 0 && n.nmi_output && in_vblank), ..n }
    } else {
        n
    }
}

/// Length of each of the eight sprite slots' arrays.
pub const SPRITE_SLOTS: usize = 8;

impl Sprites {
    pub open spec fn wf(&self) -> bool {
        &&& self.count <= 8
        &&& self.attribute_latches.len() == SPRITE_SLOTS
        &&& self.positions.len() == SPRITE_SLOTS
        &&& self.indexes.len() == SPRITE_SLOTS
        &&& self.pattern_low.len() == SPRITE_SLOTS
        &&& self.pattern_high.len() == SPRITE_SLOTS
    }
}

impl Timing {
    /// Counters after one dot: the pre-render line is one dot shorter on odd frames.
    pub open spec fn clocked(&self) -> (u16, u16, u64) {
        if self.cycle == 339 && self.scanline == 261 && self.frame % 2 == 1 {
            (0, 0, (if self.frame == u64::MAX { 0 } else { self.frame + 1 }) as u64)
        } else if self.cycle == 340 && self.scanline == 261 {
            (0, 0, (if self.frame == u64::MAX { 0 } else { self.frame + 1 }) as u64)
        } else if self.cycle == 340 {
            (0, (self.scanline + 1) as u16, self.frame)
        } else {
            ((self.cycle + 1) as u16, self.scanline, self.frame)
        }
    }

    /// Advances the dot, scanline and frame counters.
    pub fn clock(&mut self)
        requires
            old(self).cycle <= 340,
            old(self).scanline <= 261,
        ensures
            (final(self).cycle, final(self).scanline, final(self).frame) == old(self).clocked(),
            final(self).end_of_frame == old(self).end_of_frame,
            final(self).cycle <= 340,
            final(self).scanline <= 261,
    {
        if self.cycle == 339 && self.scanline == 261 && self.frame % 2 == 1 {
            self.cycle = 0;
            self.scanline = 0;
            self.frame = self.frame.wrapping_add(1);
        } else if self.cycle == 340 && self.scanline == 261 {
            self.cycle = 0;
            self.scanline = 0;
            self.frame = self.frame.wrapping_add(1);
        } else if self.cycle == 340 {
            self.cycle = 0;
            self.scanline = self.scanline + 1;
        } else {
            self.cycle = self.cycle + 1;
        }
    }
}

impl PPU {
    pub open spec fn wf(&self) -> bool {
        &&& self.timing.cycle <= 340
        &&& self.timing.scanline <= 261
        &&& self.scroll.v < 0x8000
        &&& self.scroll.t < 0x8000
        &&& self.scroll.x < 8
        &&& self.sprites.wf()
        &&& self.nametable_data.len() == 0x800
        &&& self.palette_data.len() == 0x20
        &&& self.oam_data.len() == 0x100
        &&& self.secondary_oam.len() == 0x20
        &&& self.palette_table@ == palette_colors()
        &&& self.nmi.nmi_previous == (self.nmi.nmi_output && self.status.in_vblank)
    }

    /// Background or sprites are being drawn.
    pub open spec fn rendering(&self) -> bool {
        self.mask.show_background || self.mask.show_sprites
    }

    /// Visible and pre-render scanlines, where the pipeline fetches.
    pub open spec fn fetch_line(&self) -> bool {
        self.timing.scanline < 240 || self.timing.scanline == 261
    }

    /// The byte the PPU bus gives at `address`.
    #[verifier::opaque]
    pub open spec fn bus_read(&self, mapper: &AnyMapper, address: int) -> u8 {
        if 0 <= address <= 0x1fff {
            mapper.spec_read(address)
        } else if 0x2000 <= address <= 0x3eff {
            match nametable_index(mapper.spec_mirror(), address) {
                Some(i) => self.nametable_data@[i],
                None => 0,
            }
        } else if 0x3f00 <= address <= 0x3fff {
            self.palette_data@[address % 0x20]
        } else {
            0
        }
    }

    /// Nametable RAM once `value` is written at `address`.
    pub open spec fn nametable_after(&self, mirror: Mirror, address: int, value: u8) -> Seq<u8> {
        if 0x2000 <= address <= 0x3eff {
            match nametable_index(mirror, address) {
                Some(i) => self.nametable_data@.update(i, value),
                None => self.nametable_data@,
            }
        } else {
            self.nametable_data@
        }
    }

    /// Palette RAM once `value` is written at `address`.
    pub open spec fn palette_after(&self, address: int, value: u8) -> Seq<u8> {
        if 0x3f00 <= address <= 0x3fff {
            palette_after_write(self.palette_data@, address % 0x20, value)
        } else {
            self.palette_data@
        }
    }

    /// NMI edge detector: arms the one-dot delay when NMI output and vblank
    /// both become true.
    pub open spec fn nmi_changed(&self) -> Nmi {
        nmi_edge(self.nmi, self.status.in_vblank)
    }

    pub fn new() -> (r: PPU)
        ensures
            r.wf(),
            r.timing == (Timing { cycle: 0, scanline: 0, frame: 0, end_of_frame: false }),
            r.scroll == (Scroll { v: 0, t: 0, x: 0, w: 0, f: 0 }),
            r.nmi == (Nmi { nmi_previous: false, nmi_output: false, nmi_delay: 0, trigger_nmi: false }),
            r.status == (Flags { in_vblank: false, sprite_zero_hit: false, sprite_overflow: false }),
            !r.mask.show_background && !r.mask.show_sprites,
            !r.ctrl.increment && r.oam_address == 0 && r.read_buffer_data == 0,
            r.sprites.count == 0,
            forall|i: int| 0 <= i < 0x800 ==> r.nametable_data@[i] == 0,
            forall|i: int| 0 <= i < 0x20 ==> r.palette_data@[i] == 0,
            forall|i: int| 0 <= i < 0x100 ==> r.oam_data@[i] == 0,
    {
        let palette_table: Vec<Color> = vec![
            Color(84, 84, 84), Color(0, 30, 116), Color(8, 16, 144), Color(48, 0, 136),
            Color(68, 0, 100), Color(92, 0, 48), Color(84, 4, 0), Color(60, 24, 0),
            Color(32, 42, 0), Color(8, 58, 0), Color(0, 64, 0), Color(0, 60, 0),
            Color(0, 50, 60), Color(0, 0, 0), Color(0, 0, 0), Color(0, 0, 0),
            Color(152, 150, 152), Color(8, 76, 196), Color(48, 50, 236), Color(92, 30, 228),
            Color(136, 20, 176), Color(160, 20, 100), Color(152, 34, 32), Color(120, 60, 0),
            Color(84, 90, 0), Color(40, 114, 0), Color(8, 124, 0), Color(0, 118, 40),
            Color(0, 102, 120), Color(0, 0, 0), Color(0, 0, 0), Color(0, 0, 0),
            Color(236, 238, 236), Color(76, 154, 236), Color(120, 124, 236), Color(176, 98, 236),
            Color(228, 84, 236), Color(236, 88, 180), Color(236, 106, 100), Color(212, 136, 32),
            Color(160, 170, 0), Color(116, 196, 0), Color(76, 208, 32), Color(56, 204, 108),
            Color(56, 180, 204), Color(60, 60, 60), Color(0, 0, 0), Color(0, 0, 0),
            Color(236, 238, 236), Color(168, 204, 236), Color(188, 188, 236), Color(212, 178, 236),
            Color(236, 174, 236), Color(236, 174, 212), Color(236, 180, 176), Color(228, 196, 144),
            Color(204, 210, 120), Color(180, 222, 120), Color(168, 226, 144), Color(152, 226, 180),
            Color(160, 214, 228), Color(160, 162, 160), Color(0, 0, 0), Color(0, 0, 0),
        ];
        assert(palette_table@ =~= palette_colors());
        PPU {
            timing: Timing { cycle: 0, scanline: 0, frame: 0, end_of_frame: false },
            scroll: Scroll { v: 0, t: 0, x: 0, w: 0, f: 0 },
            ctrl: Control {
                flag_nametable: 0,
                increment: false,
                flag_sprite_table: false,
                flag_background_table: false,
                flag_sprite_size: false,
                flag_master_slave: false,
            },
            mask: Mask {
                grayscale: false,
                show_left_background: false,
                show_left_sprites: false,
                show_background: false,
                show_sprites: false,
                red_tint: false,
                blue_tint: false,
                green_tint: false,
            },
            status: Flags { in_vblank: false, sprite_zero_hit: false, sprite_overflow: false },
            nmi: Nmi { nmi_previous: false, nmi_output: false, nmi_delay: 0, trigger_nmi: false },
            bg: Background {
                nametable_byte: 0,
                attribute_table_byte: 0,
                low_tile_byte: 0,
                high_tile_byte: 0,
                pattern_shift_reg_low: 0,
                pattern_shift_reg_high: 0,
                palette_shift_reg_low: 0,
                palette_shift_reg_high: 0,
                palette_latch: 0,
            },
            sprites: Sprites {
                count: 0,
                attribute_latches: vec![0u8; SPRITE_SLOTS],
                positions: vec![0u8; SPRITE_SLOTS],
                indexes: vec![0u8; SPRITE_SLOTS],
                pattern_low: vec![0u8; SPRITE_SLOTS],
                pattern_high: vec![0u8; SPRITE_SLOTS],
            },
            nametable_data: vec![0u8; 0x800],
            palette_data: vec![0u8; 0x20],
            oam_data: vec![0u8; 0x100],
            secondary_oam: vec![0u8; 0x20],
            oam_address: 0,
            data_buffer: 0,
            read_buffer_data: 0,
            palette_table,
        }
    }

    /// Advances the dot, scanline and frame counters by one dot.
    pub fn clock(&mut self)
        requires
            old(self).wf(),
        ensures
            (final(self).timing.cycle, final(self).timing.scanline, final(self).timing.frame)
                == old(self).timing.clocked(),
            *final(self) == (PPU {
                timing: Timing { end_of_frame: old(self).timing.end_of_frame, ..final(self).timing },
                ..*old(self)
            }),
            final(self).wf(),
    {
        self.timing.clock();
    }

    /// Nametable slot for `address` in $2000-$3EFF.
    fn nametable_slot(mirror: Mirror, address: usize) -> (r: Option<usize>)
        requires
            0x2000 <= address <= 0x3eff,
        ensures
            r matches Some(i) ==> i < 0x800 && nametable_index(mirror, address as int) == Some(
                i as int,
            ),
            r is None ==> nametable_index(mirror, address as int) is None,
    {
        let a = address % 0x1000;
        let table = a / 0x400;
        let offset = a % 0x400;
        match mirror {
            Mirror::Horizontal => Some((table / 2) * 0x400 + offset),
            Mirror::Vertical => Some((table % 2) * 0x400 + offset),
            Mirror::Single0 => Some(offset),
            Mirror::Single1 => Some(0x400 + offset),
            Mirror::Four => None,
        }
    }

    /// PPU bus read.
    pub fn read(&self, mapper: &AnyMapper, address: usize) -> (r: u8)
        requires
            self.wf(),
            mapper.wf(),
        ensures
            r == self.bus_read(mapper, address as int),
    {
        reveal(PPU::bus_read);
        if address <= 0x1fff {
            mapper.read(address)
        } else if address <= 0x3eff {
            match PPU::nametable_slot(mapper.get_mirror(), address) {
                Some(i) => self.nametable_data[i],
                None => 0,
            }
        } else if address <= 0x3fff {
            self.palette_data[address % 0x20]
        } else {
            0
        }
    }

    /// Writes VRAM: nametables and palette RAM.
    fn write_vram(&mut self, mirror: Mirror, address: usize, value: u8)
        requires
            old(self).wf(),
            0x2000 <= address,
        ensures
            final(self).nametable_data@ == old(self).nametable_after(mirror, address as int, value),
            final(self).palette_data@ == old(self).palette_after(address as int, value),
            *final(self) == (PPU {
                nametable_data: final(self).nametable_data,
                palette_data: final(self).palette_data,
                ..*old(self)
            }),
            final(self).wf(),
    {
        if address <= 0x3eff {
            match PPU::nametable_slot(mirror, address) {
                Some(i) => self.nametable_data.set(i, value),
                None => {},
            }
        } else if address <= 0x3fff {
            let a = address % 0x20;
            if a == 0x10 || a == 0x14 || a == 0x18 || a == 0x1c {
                self.palette_data.set(a - 0x10, value);
            }
            self.palette_data.set(a, value);
        }
    }

    /// PPU bus write: pattern tables go to the cartridge, the rest to VRAM.
    pub fn write(&mut self, mapper: &mut AnyMapper, address: usize, value: u8)
        requires
            old(self).wf(),
            old(mapper).wf(),
        ensures
            final(self).nametable_data@ == old(self).nametable_after(
                old(mapper).spec_mirror(),
                address as int,
                value,
            ),
            final(self).palette_data@ == old(self).palette_after(address as int, value),
            *final(self) == (PPU {
                nametable_data: final(self).nametable_data,
                palette_data: final(self).palette_data,
                ..*old(self)
            }),
            if address <= 0x1fff {
                old(mapper).spec_written(address as int, value, final(mapper))
            } else {
                *final(mapper) == *old(mapper)
            },
            final(self).wf(),
            final(mapper).wf(),
    {
        if address <= 0x1fff {
            mapper.write(address, value);
        } else {
            let mirror = mapper.get_mirror();
            self.write_vram(mirror, address, value);
        }
    }

    /// Re-evaluates the NMI edge after NMI output or vblank changed.
    pub fn nmi_change(&mut self)
        ensures
            *final(self) == (PPU { nmi: old(self).nmi_changed(), ..*old(self) }),
    {
        let nmi = self.nmi.nmi_output && self.status.in_vblank;
        if nmi && !self.nmi.nmi_previous {
            self.nmi.nmi_delay = 1;
        }
        self.nmi.nmi_previous = nmi;
    }
}

/// PPU bus reads depend on VRAM alone among the PPU's state.
pub proof fn lemma_bus_read_same(a: &PPU, b: &PPU, mapper: &AnyMapper)
    requires
        a.nametable_data == b.nametable_data,
        a.palette_data == b.palette_data,
    ensures
        forall|address: int| #[trigger] a.bus_read(mapper, address) == b.bus_read(mapper, address),
{
    reveal(PPU::bus_read);
}

pub proof fn lemma_scroll_copies_in_range(v: u16, t: u16)
    requires
        v < 0x8000,
        t < 0x8000,
    ensures
        (v & 0xfbe0) | (t & 0x041f) < 0x8000,
        (v & 0x841f) | (t & 0x7be0) < 0x8000,
{
    assert((v & 0xfbe0) | (t & 0x041f) < 0x8000 && (v & 0x841f) | (t & 0x7be0) < 0x8000)
        by (bit_vector)
        requires
            v < 0x8000,
            t < 0x8000,
    ;
}

impl PPU {
    /// A dot on which the background pipeline fetches and shifts.
    pub open spec fn fetch_dot(&self) -> bool {
        let c = self.timing.cycle;
        self.rendering() && self.fetch_line() && ((1 <= c <= 256) || (321 <= c <= 336))
    }

    /// A dot that emits a pixel.
    pub open spec fn pixel_dot(&self) -> bool {
        self.rendering() && self.timing.scanline < 240 && 1 <= self.timing.cycle <= 256
    }

    /// `v` after one dot: coarse X steps at the end of each fetched tile,
    /// fine/coarse Y steps at dot 256, horizontal bits come back from `t` at
    /// 257 and vertical bits at 280-304 of the pre-render line.
    pub open spec fn stepped_v(&self) -> u16 {
        let c = self.timing.cycle;
        let v = self.scroll.v;
        let t = self.scroll.t;
        if !self.rendering() {
            v
        } else {
            let v1 = if self.fetch_dot() && c % 8 == 0 {
                coarse_x_incremented(v)
            } else if self.fetch_line() && c == 257 {
                (v & 0xfbe0) | (t & 0x041f)
            } else {
                v
            };
            let v2 = if self.timing.scanline == 261 && 280 <= c <= 304 {
                (v1 & 0x841f) | (t & 0x7be0)
            } else {
                v1
            };
            if self.fetch_line() && c == 256 {
                y_incremented(v2)
            } else {
                v2
            }
        }
    }

    /// Counts the NMI delay down.
    fn tick_nmi_delay(&mut self)
        ensures
            *final(self) == (PPU {
                nmi: nmi_ticked(old(self).nmi, old(self).status.in_vblank),
                ..*old(self)
            }),
    {
        if self.nmi.nmi_delay > 0 {
            self.nmi.nmi_delay = self.nmi.nmi_delay - 1;
            if self.nmi.nmi_delay == 0 && self.nmi.nmi_output && self.status.in_vblank {
                self.nmi.trigger_nmi = true;
            }
        }
    }

    /// The rendering work of one dot, while background or sprites are shown.
    fn render_dot(&mut self, mapper: &AnyMapper) -> (r: Option<(usize, usize, Color)>)
        requires
            old(self).wf(),
            mapper.wf(),
            old(self).rendering(),
        ensures
            r is Some == old(self).pixel_dot(),
            r matches Some(p) ==> p == (
                (old(self).timing.cycle - 1) as usize,
                old(self).timing.scanline as usize,
                old(self).pixel_color(old(self).timing.cycle - 1),
            ),
            final(self).scroll.v == old(self).stepped_v(),
            final(self).bg == if old(self).fetch_dot() {
                old(self).fetched_bg(mapper)
            } else {
                old(self).bg
            },
            *final(self) == (PPU {
                scroll: Scroll { v: final(self).scroll.v, ..old(self).scroll },
                bg: final(self).bg,
                sprites: final(self).sprites,
                secondary_oam: final(self).secondary_oam,
                status: Flags { in_vblank: old(self).status.in_vblank, ..final(self).status },
                ..*old(self)
            }),
            final(self).wf(),
    {
        let ghost start = *self;
        let cycle = self.timing.cycle;
        let scanline = self.timing.scanline;
        let fetch_line = scanline < 240 || scanline == 261;
        let mut pixel: Option<(usize, usize, Color)> = None;
        if fetch_line {
            if 1 <= cycle && cycle <= 256 {
                if scanline != 261 {
                    pixel = Some(self.render_pixel());
                }
                proof {
                    lemma_bus_read_same(&start, self, mapper);
                }
                self.fetch_background(mapper);
            } else if cycle == 257 {
                proof {
                    lemma_scroll_copies_in_range(self.scroll.v, self.scroll.t);
                }
                self.scroll.v = (self.scroll.v & 0xfbe0) | (self.scroll.t & 0x041f);
            } else if 321 <= cycle && cycle <= 336 {
                self.fetch_background(mapper);
            }
        }
        if scanline < 240 {
            if cycle == 1 {
                self.secondary_oam = vec![0xffu8; 0x20];
            } else if cycle == 257 {
                self.evaluate_sprites();
                self.fetch_sprites(mapper);
            }
        }
        if scanline == 261 && 280 <= cycle && cycle <= 304 {
            proof {
                lemma_scroll_copies_in_range(self.scroll.v, self.scroll.t);
            }
            self.scroll.v = (self.scroll.v & 0x841f) | (self.scroll.t & 0x7be0);
        }
        if fetch_line && cycle == 256 {
            self.increment_y();
        }
        pixel
    }

    /// Runs one dot: rendering, the NMI delay, vblank and the end-of-frame
    /// signal, then the counters. Returns the pixel drawn on this dot, if any.
    pub fn step(&mut self, mapper: &AnyMapper) -> (r: Option<(usize, usize, Color)>)
        requires
            old(self).wf(),
            mapper.wf(),
        ensures
            final(self).wf(),
            ({
                let c = old(self).timing.cycle;
                let line = old(self).timing.scanline;
                let ticked = nmi_ticked(old(self).nmi, old(self).status.in_vblank);
                &&& (final(self).timing.cycle, final(self).timing.scanline, final(self).timing.frame)
                    == old(self).timing.clocked()
                &&& final(self).timing.end_of_frame == (c == 256 && line == 240)
                &&& r is Some == old(self).pixel_dot()
                &&& r matches Some(p) ==> p == (
                    (c - 1) as usize,
                    line as usize,
                    old(self).pixel_color(c - 1),
                )
                &&& final(self).nmi == if line == 241 && c == 1 {
                    nmi_edge(ticked, true)
                } else if line == 261 && c == 1 {
                    nmi_edge(ticked, false)
                } else {
                    ticked
                }
                &&& final(self).status.in_vblank == if line == 241 && c == 1 {
                    true
                } else if line == 261 && c == 1 {
                    false
                } else {
                    old(self).status.in_vblank
                }
                &&& (line == 261 && c == 1) ==> !final(self).status.sprite_zero_hit
                    && !final(self).status.sprite_overflow
                &&& final(self).scroll == Scroll { v: old(self).stepped_v(), ..old(self).scroll }
                &&& final(self).bg == if old(self).fetch_dot() {
                    old(self).fetched_bg(mapper)
                } else {
                    old(self).bg
                }
                &&& !old(self).rendering() ==> final(self).sprites == old(self).sprites
                    && final(self).secondary_oam == old(self).secondary_oam
                &&& !old(self).rendering() && !(line == 261 && c == 1) ==> {
                    let f = final(self).status;
                    f.sprite_zero_hit == old(self).status.sprite_zero_hit
                        && f.sprite_overflow == old(self).status.sprite_overflow
                }
            }),
            final(self).ctrl == old(self).ctrl,
            final(self).mask == old(self).mask,
            final(self).nametable_data == old(self).nametable_data,
            final(self).palette_data == old(self).palette_data,
            final(self).oam_data == old(self).oam_data,
            final(self).oam_address == old(self).oam_address,
            final(self).data_buffer == old(self).data_buffer,
            final(self).read_buffer_data == old(self).read_buffer_data,
    {
        let pixel = if self.mask.show_background || self.mask.show_sprites {
            self.render_dot(mapper)
        } else {
            None
        };
        self.tick_nmi_delay();
        let cycle = self.timing.cycle;
        let scanline = self.timing.scanline;
        if scanline == 241 && cycle == 1 {
            self.status.in_vblank = true;
            self.nmi_change();
        }
        if scanline == 261 && cycle == 1 {
            self.status.in_vblank = false;
            self.nmi_change();
            self.status.sprite_zero_hit = false;
            self.status.sprite_overflow = false;
        }
        self.timing.end_of_frame = cycle == 256 && scanline == 240;
        self.clock();
        pixel
    }
}

/// A write to a sprite backdrop entry ($3F10/$3F14/$3F18/$3F1C) is seen
/// through its background mirror ($3F00/$3F04/$3F08/$3F0C).
pub proof fn lemma_palette_mirror(p: &PPU, after: &PPU, mapper: &AnyMapper, address: int, value: u8)
    requires
        p.wf(),
        address == 0x3f10 || address == 0x3f14 || address == 0x3f18 || address == 0x3f1c,
        after.palette_data@ == p.palette_after(address, value),
    ensures
        after.bus_read(mapper, address - 0x10) == value,
        after.bus_read(mapper, address) == value,
{
    reveal(PPU::bus_read);
}

/// Dot position within a frame.
pub open spec fn dot_index(cycle: u16, scanline: u16) -> int {
    scanline * 341 + cycle
}

/// Within a frame the dot only moves forward, one position per step, and a
/// new frame starts only from the last dots of the pre-render line; so each
/// position of a frame, the end-of-frame dot (256, 240) among them, comes at
/// most once per frame, and a frame passes through every position before
/// (339, 261).
pub proof fn lemma_clock_advances(t: Timing)
    requires
        t.cycle <= 340,
        t.scanline <= 261,
    ensures
        ({
            let (c, l, f) = t.clocked();
            &&& f == t.frame ==> dot_index(c, l) == dot_index(t.cycle, t.scanline) + 1
            &&& f != t.frame ==> c == 0 && l == 0 && dot_index(t.cycle, t.scanline) >= dot_index(339, 261)
            &&& f != t.frame && t.frame < u64::MAX ==> f == t.frame + 1
            &&& c <= 340 && l <= 261
        }),
{
}

/// Setting NMI output during vblank arms the one-dot delay, and the next
/// dot raises the trigger; setting it again while it is already on arms
/// nothing more, so a game writing PPUCTRL repeatedly in vblank gets one NMI.
pub proof fn lemma_vblank_nmi(p: &PPU, value: u8)
    requires
        p.wf(),
        p.status.in_vblank,
        !p.nmi.nmi_output,
        value & 0x80 != 0,
    ensures
        ({
            let armed = nmi_edge(Nmi { nmi_output: true, ..p.nmi }, true);
            &&& armed.nmi_delay == 1
            &&& nmi_ticked(armed, true).trigger_nmi
            &&& nmi_edge(Nmi { nmi_output: true, ..armed }, true).nmi_delay == armed.nmi_delay
            &&& nmi_edge(Nmi { nmi_output: true, ..nmi_ticked(armed, true) }, true)
                == nmi_ticked(armed, true)
        }),
{
}

} // verus!
