use vstd::prelude::*;

use crate::cartridge::{AnyMapper, Mapper};
use crate::ppu::render::{coarse_x_incremented, lemma_increments_in_range, y_incremented};
use crate::ppu::{nmi_edge, Control, Flags, Mask, Nmi, Scroll, PPU};

verus! {

/// PPUCTRL fields of a written byte.
pub open spec fn control_of(value: u8) -> Control {
    Control {
        flag_nametable: value & 3,
        increment: value & 0x04 != 0,
        flag_sprite_table: value & 0x08 != 0,
        flag_background_table: value & 0x10 != 0,
        flag_sprite_size: value & 0x20 != 0,
        flag_master_slave: value & 0x40 != 0,
    }
}

/// PPUMASK fields of a written byte.
pub open spec fn mask_of(value: u8) -> Mask {
    Mask {
        grayscale: value & 0x01 != 0,
        show_left_background: value & 0x02 != 0,
        show_left_sprites: value & 0x04 != 0,
        show_background: value & 0x08 != 0,
        show_sprites: value & 0x10 != 0,
        red_tint: value & 0x20 != 0,
        blue_tint: value & 0x40 != 0,
        green_tint: value & 0x80 != 0,
    }
}

/// Scroll registers after a PPUSCROLL write: X first, then Y.
pub open spec fn scroll_written(s: Scroll, value: u8) -> Scroll {
    if s.w == 0 {
        Scroll { t: (s.t & 0xffe0) | ((value as u16) >> 3), x: value & 7, w: 1, ..s }
    } else {
        let t1 = (s.t & 0x8fff) | (((value as u16) & 7) << 12);
        Scroll { t: (t1 & 0xfc1f) | (((value as u16) & 0xf8) << 2), w: 0, ..s }
    }
}

/// Scroll registers after a PPUADDR write: high six bits first, then the low
/// byte, which also copies `t` into `v`.
pub open spec fn address_written(s: Scroll, value: u8) -> Scroll {
    if s.w == 0 {
        Scroll { t: (s.t & 0x80ff) | (((value as u16) & 0x3f) << 8), w: 1, ..s }
    } else {
        let t1 = (s.t & 0xff00) | (value as u16);
        Scroll { t: t1, v: t1, w: 0, ..s }
    }
}

pub proof fn lemma_register_writes_in_range(t: u16, value: u8)
    requires
        t < 0x8000,
    ensures
        (t & 0xf3ff) | (((value as u16) & 3) << 10) < 0x8000,
        (t & 0xffe0) | ((value as u16) >> 3) < 0x8000,
        (((t & 0x8fff) | (((value as u16) & 7) << 12)) & 0xfc1f) | (((value as u16) & 0xf8) << 2)
            < 0x8000,
        (t & 0x80ff) | (((value as u16) & 0x3f) << 8) < 0x8000,
        (t & 0xff00) | (value as u16) < 0x8000,
        value & 7 < 8,
{
    let vv = value as u16;
    assert((t & 0xf3ff) | ((vv & 3) << 10) < 0x8000 && (t & 0xffe0) | (vv >> 3) < 0x8000 && (((t
        & 0x8fff) | ((vv & 7) << 12)) & 0xfc1f) | ((vv & 0xf8) << 2) < 0x8000 && (t & 0x80ff) | ((
    vv & 0x3f) << 8) < 0x8000 && (t & 0xff00) | vv < 0x8000) by (bit_vector)
        requires
            t < 0x8000,
            vv <= 0xff,
    ;
    assert(value & 7 < 8) by (bit_vector);
}

/// The two PPUADDR writes `hi`, `lo` (from a clear write toggle) point `v` at
/// `((hi & 0x3f) << 8) | lo`.
pub proof fn lemma_address_pair(s: Scroll, hi: u8, lo: u8)
    requires
        s.w == 0,
        s.t < 0x8000,
    ensures
        address_written(address_written(s, hi), lo).v == ((hi as u16 & 0x3f) << 8) | lo as u16,
        address_written(address_written(s, hi), lo).w == 0,
{
    let t = s.t;
    let h = hi as u16;
    let l = lo as u16;
    assert(((t & 0x80ff) | ((h & 0x3f) << 8)) & 0xff00 | l == ((h & 0x3f) << 8) | l) by (bit_vector)
        requires
            t < 0x8000,
            l <= 0xff,
    ;
}

/// `v` stays within 15 bits after a PPUDATA access.
pub proof fn lemma_data_advanced_in_range(p: &PPU)
    requires
        p.wf(),
    ensures
        p.data_advanced_v() < 0x8000,
{
    lemma_increments_in_range(p.scroll.v);
    lemma_increments_in_range(coarse_x_incremented(p.scroll.v));
}

/// After PPUADDR writes `hi`, `lo`, the next PPUDATA read fetches the byte
/// at `((hi & 0x3f) << 8) | lo`: into the read buffer below the palette, or
/// straight back from palette RAM; outside rendering `v` then moves on by the
/// configured increment.
pub proof fn lemma_address_then_data(p: &PPU, mapper: &AnyMapper, hi: u8, lo: u8)
    requires
        p.wf(),
        p.scroll.w == 0,
    ensures
        ({
            let q = PPU { scroll: address_written(address_written(p.scroll, hi), lo), ..*p };
            let address = (((hi as u16 & 0x3f) << 8) | lo as u16) as int;
            &&& q.scroll.v == address
            &&& address < 0x3f00 ==> q.data_read_buffer(mapper) == q.bus_read(mapper, address)
            &&& address >= 0x3f00 ==> q.data_read_value(mapper) == q.bus_read(mapper, address)
            &&& !(q.rendering() && q.fetch_line()) ==> q.data_advanced_v() == (address + if q.ctrl.increment {
                32int
            } else {
                1int
            }) % 0x8000
        }),
{
    lemma_address_pair(p.scroll, hi, lo);
    let h = hi as u16;
    let l = lo as u16;
    assert(((h & 0x3f) << 8) | l <= 0x3fff) by (bit_vector)
        requires
            l <= 0xff,
    ;
}

impl PPU {
    /// `v` after a PPUDATA access: while rendering it steps like the fetch
    /// pipeline, otherwise it moves by 1 or 32 within 15 bits.
    pub open spec fn data_advanced_v(&self) -> u16 {
        if self.rendering() && self.fetch_line() {
            y_incremented(coarse_x_incremented(self.scroll.v))
        } else {
            ((self.scroll.v + if self.ctrl.increment {
                32int
            } else {
                1int
            }) % 0x8000) as u16
        }
    }

    /// The byte a PPUSTATUS read returns.
    pub open spec fn status_byte(&self) -> u8 {
        (self.data_buffer & 0x1f) | (if self.status.sprite_overflow {
            0x20u8
        } else {
            0
        }) | (if self.status.sprite_zero_hit {
            0x40u8
        } else {
            0
        }) | (if self.status.in_vblank {
            0x80u8
        } else {
            0
        })
    }

    /// Moves `v` on after a PPUDATA access.
    fn advance_data_address(&mut self)
        requires
            old(self).wf(),
        ensures
            *final(self) == (PPU {
                scroll: Scroll { v: old(self).data_advanced_v(), ..old(self).scroll },
                ..*old(self)
            }),
            final(self).wf(),
    {
        if (self.mask.show_background || self.mask.show_sprites) && (self.timing.scanline < 240
            || self.timing.scanline == 261) {
            proof {
                lemma_increments_in_range(self.scroll.v);
            }
            self.increment_coarse_x();
            self.increment_y();
        } else {
            let step: u16 = if self.ctrl.increment {
                32
            } else {
                1
            };
            self.scroll.v = (self.scroll.v + step) % 0x8000;
        }
    }

    /// $2002 PPUSTATUS read: vblank, sprite-zero hit, overflow over the stale
    /// low bits; clears vblank and the write toggle.
    pub fn read_status(&mut self) -> (r: u8)
        ensures
            r == old(self).status_byte(),
            *final(self) == (PPU {
                scroll: Scroll { w: 0, ..old(self).scroll },
                status: Flags { in_vblank: false, ..old(self).status },
                nmi: nmi_edge(old(self).nmi, false),
                ..*old(self)
            }),
    {
        let result: u8 = (self.data_buffer & 0x1f) | (if self.status.sprite_overflow {
            0x20u8
        } else {
            0
        }) | (if self.status.sprite_zero_hit {
            0x40u8
        } else {
            0
        }) | (if self.status.in_vblank {
            0x80u8
        } else {
            0
        });
        self.scroll.w = 0;
        self.status.in_vblank = false;
        self.nmi_change();
        result
    }

    /// $2004 OAMDATA read.
    pub fn read_oam_data(&self) -> (r: u8)
        requires
            self.wf(),
        ensures
            r == self.oam_data@[self.oam_address as int],
    {
        self.oam_data[self.oam_address as usize]
    }

    /// The byte a PPUDATA read returns.
    pub open spec fn data_read_value(&self, mapper: &AnyMapper) -> u8 {
        let v = self.scroll.v as int;
        if v % 0x4000 < 0x3f00 {
            self.read_buffer_data
        } else {
            self.bus_read(mapper, v)
        }
    }

    /// The read buffer after a PPUDATA read.
    pub open spec fn data_read_buffer(&self, mapper: &AnyMapper) -> u8 {
        let v = self.scroll.v as int;
        if v % 0x4000 < 0x3f00 {
            self.bus_read(mapper, v)
        } else {
            self.bus_read(mapper, v - 0x1000)
        }
    }

    /// The buffered part of a PPUDATA read, before `v` moves.
    fn buffered_read(&mut self, mapper: &AnyMapper) -> (r: u8)
        requires
            old(self).wf(),
            mapper.wf(),
        ensures
            r == old(self).data_read_value(mapper),
            *final(self) == (PPU {
                read_buffer_data: old(self).data_read_buffer(mapper),
                ..*old(self)
            }),
    {
        let v = self.scroll.v as usize;
        let low: usize = if v >= 0x4000 {
            v - 0x4000
        } else {
            v
        };
        assert(low == v % 0x4000);
        if low < 0x3f00 {
            let fresh = self.read(mapper, v);
            let buffered = self.read_buffer_data;
            self.read_buffer_data = fresh;
            buffered
        } else {
            let direct = self.read(mapper, v);
            self.read_buffer_data = self.read(mapper, v - 0x1000);
            direct
        }
    }

    /// $2007 PPUDATA read: below the palette the previous buffered byte comes
    /// back and the buffer refills from `v`; palette bytes come back at once
    /// and the buffer takes the nametable byte beneath them.
    pub fn read_data(&mut self, mapper: &AnyMapper) -> (r: u8)
        requires
            old(self).wf(),
            mapper.wf(),
        ensures
            r == old(self).data_read_value(mapper),
            *final(self) == (PPU {
                scroll: Scroll { v: old(self).data_advanced_v(), ..old(self).scroll },
                read_buffer_data: old(self).data_read_buffer(mapper),
                ..*old(self)
            }),
            final(self).wf(),
    {
        let result = self.buffered_read(mapper);
        self.advance_data_address();
        result
    }

    /// $2000 PPUCTRL write.
    pub fn write_control(&mut self, value: u8)
        requires
            old(self).wf(),
        ensures
            *final(self) == (PPU {
                ctrl: control_of(value),
                nmi: nmi_edge(
                    Nmi { nmi_output: value & 0x80 != 0, ..old(self).nmi },
                    old(self).status.in_vblank,
                ),
                scroll: Scroll {
                    t: (old(self).scroll.t & 0xf3ff) | (((value as u16) & 3) << 10),
                    ..old(self).scroll
                },
                ..*old(self)
            }),
            final(self).wf(),
    {
        proof {
            lemma_register_writes_in_range(self.scroll.t, value);
        }
        self.ctrl = Control {
            flag_nametable: value & 3,
            increment: value & 0x04 != 0,
            flag_sprite_table: value & 0x08 != 0,
            flag_background_table: value & 0x10 != 0,
            flag_sprite_size: value & 0x20 != 0,
            flag_master_slave: value & 0x40 != 0,
        };
        self.nmi.nmi_output = value & 0x80 != 0;
        self.nmi_change();
        self.scroll.t = (self.scroll.t & 0xf3ff) | (((value as u16) & 3) << 10);
    }

    /// $2001 PPUMASK write.
    pub fn write_mask(&mut self, value: u8)
        ensures
            *final(self) == (PPU { mask: mask_of(value), ..*old(self) }),
    {
        self.mask = Mask {
            grayscale: value & 0x01 != 0,
            show_left_background: value & 0x02 != 0,
            show_left_sprites: value & 0x04 != 0,
            show_background: value & 0x08 != 0,
            show_sprites: value & 0x10 != 0,
            red_tint: value & 0x20 != 0,
            blue_tint: value & 0x40 != 0,
            green_tint: value & 0x80 != 0,
        };
    }

    /// $2003 OAMADDR write.
    pub fn write_oam_address(&mut self, value: u8)
        ensures
            *final(self) == (PPU { oam_address: value, ..*old(self) }),
    {
        self.oam_address = value;
    }

    /// $2004 OAMDATA write: stores at OAMADDR, which then moves on (wrapping).
    pub fn write_oam_data(&mut self, value: u8)
        requires
            old(self).wf(),
        ensures
            final(self).oam_data@ == old(self).oam_data@.update(old(self).oam_address as int, value),
            *final(self) == (PPU {
                oam_data: final(self).oam_data,
                oam_address: old(self).oam_address.wrapping_add(1),
                ..*old(self)
            }),
            final(self).wf(),
    {
        self.oam_data.set(self.oam_address as usize, value);
        self.oam_address = self.oam_address.wrapping_add(1);
    }

    /// $2005 PPUSCROLL write.
    pub fn write_scroll(&mut self, value: u8)
        requires
            old(self).wf(),
        ensures
            *final(self) == (PPU { scroll: scroll_written(old(self).scroll, value), ..*old(self) }),
            final(self).wf(),
    {
        proof {
            lemma_register_writes_in_range(self.scroll.t, value);
        }
        let sc = self.scroll;
        let next = if sc.w == 0 {
            Scroll { t: (sc.t & 0xffe0) | ((value as u16) >> 3), x: value & 7, w: 1, ..sc }
        } else {
            let t1 = (sc.t & 0x8fff) | (((value as u16) & 7) << 12);
            Scroll { t: (t1 & 0xfc1f) | (((value as u16) & 0xf8) << 2), w: 0, ..sc }
        };
        self.scroll = next;
    }

    /// $2006 PPUADDR write.
    pub fn write_address(&mut self, value: u8)
        requires
            old(self).wf(),
        ensures
            *final(self) == (PPU { scroll: address_written(old(self).scroll, value), ..*old(self) }),
            final(self).wf(),
    {
        proof {
            lemma_register_writes_in_range(self.scroll.t, value);
        }
        let sc = self.scroll;
        let next = if sc.w == 0 {
            Scroll { t: (sc.t & 0x80ff) | (((value as u16) & 0x3f) << 8), w: 1, ..sc }
        } else {
            let t1 = (sc.t & 0xff00) | (value as u16);
            Scroll { t: t1, v: t1, w: 0, ..sc }
        };
        self.scroll = next;
    }

    /// $2007 PPUDATA write: stores at `v`, then moves `v` on.
    pub fn write_data(&mut self, mapper: &mut AnyMapper, value: u8)
        requires
            old(self).wf(),
            old(mapper).wf(),
        ensures
            ({
                let v = old(self).scroll.v as int;
                &&& final(self).nametable_data@ == old(self).nametable_after(
                    old(mapper).spec_mirror(),
                    v,
                    value,
                )
                &&& final(self).palette_data@ == old(self).palette_after(v, value)
                &&& if v <= 0x1fff {
                    old(mapper).spec_written(v, value, final(mapper))
                } else {
                    *final(mapper) == *old(mapper)
                }
            }),
            *final(self) == (PPU {
                nametable_data: final(self).nametable_data,
                palette_data: final(self).palette_data,
                scroll: Scroll { v: old(self).data_advanced_v(), ..old(self).scroll },
                ..*old(self)
            }),
            final(self).wf(),
            final(mapper).wf(),
    {
        let v = self.scroll.v as usize;
        self.write(mapper, v, value);
        self.advance_data_address();
    }

    /// $4014 OAMDMA: replaces primary OAM with a 256-byte page.
    pub fn write_oam_dma(&mut self, data: Vec<u8>)
        requires
            old(self).wf(),
            data.len() == 0x100,
        ensures
            final(self).oam_data@ == data@,
            *final(self) == (PPU { oam_data: final(self).oam_data, ..*old(self) }),
            final(self).wf(),
    {
        self.oam_data = data;
    }
}

} // verus!
