use vstd::prelude::*;

use crate::cartridge::{AnyMapper, Mapper};
use crate::ppu::{Background, Color, Flags, PPU, Scroll, Sprites};

verus! {

/// `v` after moving one tile right: coarse X wraps from 31 to 0 and flips
/// the horizontal nametable bit.
pub open spec fn coarse_x_incremented(v: u16) -> u16 {
    if v & 0x001f == 0x1f {
        (v & 0xffe0) ^ 0x0400
    } else {
        (v + 1) as u16
    }
}

/// `v` after moving one pixel row down: fine Y counts to 7, then coarse Y
/// moves on; coarse Y wraps from 29 to 0 flipping the vertical nametable bit,
/// and from 31 to 0 without flipping it.
pub open spec fn y_incremented(v: u16) -> u16 {
    if (v & 0x7000) >> 12 < 7 {
        (v + 0x1000) as u16
    } else {
        let v1 = v & 0x8fff;
        let coarse_y = (v & 0x03e0) >> 5;
        if coarse_y == 29 {
            (v1 ^ 0x0800) & !0x03e0u16
        } else if coarse_y == 31 {
            v1 & !0x03e0u16
        } else {
            (v1 & !0x03e0u16) | (((coarse_y + 1) as u16) << 5)
        }
    }
}

/// The scroll helpers keep `v` within 15 bits.
pub proof fn lemma_increments_in_range(v: u16)
    requires
        v < 0x8000,
    ensures
        coarse_x_incremented(v) < 0x8000,
        y_incremented(v) < 0x8000,
{
    assert(v & 0x001f != 0x1f ==> v + 1 < 0x8000) by (bit_vector)
        requires
            v < 0x8000,
    ;
    assert((v & 0xffe0) ^ 0x0400 < 0x8000) by (bit_vector)
        requires
            v < 0x8000,
    ;
    assert((v & 0x7000) >> 12 < 7 ==> v + 0x1000 < 0x8000) by (bit_vector)
        requires
            v < 0x8000,
    ;
    let v1 = v & 0x8fff;
    let coarse_y = (v & 0x03e0) >> 5;
    assert(coarse_y <= 31 && ((v1 ^ 0x0800) & !0x03e0u16) < 0x8000 && (v1 & !0x03e0u16) < 0x8000)
        by (bit_vector)
        requires
            v < 0x8000,
            v1 == v & 0x8fff,
            coarse_y == (v & 0x03e0) >> 5,
    ;
    if coarse_y < 31 {
        let cy1 = (coarse_y + 1) as u16;
        assert((v1 & !0x03e0u16) | (cy1 << 5) < 0x8000) by (bit_vector)
            requires
                v1 == v & 0x8fff,
                v < 0x8000,
                cy1 <= 31,
        ;
    }
}

/// Height in pixels of a sprite for the PPUCTRL sprite-size flag.
pub open spec fn sprite_height(tall: bool) -> int {
    if tall {
        16
    } else {
        8
    }
}

/// Sprite `i` of primary OAM covers `line`.
pub open spec fn sprite_on_line(oam: Seq<u8>, i: int, line: int, height: int) -> bool {
    oam[4 * i] <= line < oam[4 * i] + height
}

/// Indexes, in OAM order, of the sprites among the first `n` that cover `line`.
pub open spec fn sprites_on_line(oam: Seq<u8>, line: int, height: int, n: nat) -> Seq<int>
    decreases n,
{
    if n == 0 {
        Seq::empty()
    } else {
        let prev = sprites_on_line(oam, line, height, (n - 1) as nat);
        if sprite_on_line(oam, n - 1, line, height) {
            prev.push(n - 1)
        } else {
            prev
        }
    }
}

pub proof fn lemma_sprites_on_line(oam: Seq<u8>, line: int, height: int, n: nat)
    ensures
        sprites_on_line(oam, line, height, n).len() <= n,
        forall|k: int|
            0 <= k < sprites_on_line(oam, line, height, n).len() ==> {
                let i = #[trigger] sprites_on_line(oam, line, height, n)[k];
                0 <= i < n && sprite_on_line(oam, i, line, height)
            },
    decreases n,
{
    if n > 0 {
        lemma_sprites_on_line(oam, line, height, (n - 1) as nat);
    }
}

/// The bits of a byte in reverse order, for horizontally flipped sprites.
pub open spec fn reverse_bits(b: u8) -> u8 {
    ((b & 0x01) << 7) | ((b & 0x02) << 5) | ((b & 0x04) << 3) | ((b & 0x08) << 1) | ((b & 0x10)
        >> 1) | ((b & 0x20) >> 3) | ((b & 0x40) >> 5) | ((b & 0x80) >> 7)
}

fn reverse(b: u8) -> (r: u8)
    ensures
        r == reverse_bits(b),
{
    ((b & 0x01) << 7) | ((b & 0x02) << 5) | ((b & 0x04) << 3) | ((b & 0x08) << 1) | ((b & 0x10)
        >> 1) | ((b & 0x20) >> 3) | ((b & 0x40) >> 5) | ((b & 0x80) >> 7)
}

/// The two-bit colour a sprite slot shows at its leftmost pixel.
pub open spec fn sprite_bits(s: &Sprites, i: int) -> u8 {
    (((s.pattern_high@[i] >> 7) & 1) << 1) | ((s.pattern_low@[i] >> 7) & 1)
}

/// The first slot from `i` on that has reached its X position and shows an
/// opaque pixel.
pub open spec fn first_opaque(s: &Sprites, i: int) -> Option<int>
    decreases 8 - i,
{
    if i >= s.count || i >= 8 {
        None
    } else if s.positions@[i] == 0 && sprite_bits(s, i) != 0 {
        Some(i)
    } else {
        first_opaque(s, i + 1)
    }
}

/// Address in $23C0-$2FFF of the attribute byte for the tile at `v`.
pub open spec fn attribute_address(v: u16) -> u16 {
    0x23c0 | (v & 0x0c00) | ((v >> 4) & 0x38) | ((v >> 2) & 0x07)
}

/// Which two bits of the attribute byte belong to the 16x16 quadrant of `v`.
pub open spec fn attribute_shift(v: u16) -> u8 {
    ((((v & 0x03e0) >> 5) / 2 % 2) * 4 + ((v & 0x001f) / 2 % 2) * 2) as u8
}

/// Address of the background pattern byte (low plane) for the fetched tile.
pub open spec fn tile_address(bg_table: bool, tile: u8, v: u16) -> int {
    (if bg_table {
        0x1000int
    } else {
        0int
    }) + tile * 16 + ((v >> 12) & 7)
}

impl PPU {
    /// Address of the low pattern plane for sprite slot `k`'s row on this scanline.
    pub open spec fn sprite_row_address(&self, k: int) -> int {
        let y = self.secondary_oam@[4 * k];
        let tile = self.secondary_oam@[4 * k + 1];
        let flip_v = self.secondary_oam@[4 * k + 2] & 0x80 != 0;
        let row = self.timing.scanline - y;
        if !self.ctrl.flag_sprite_size {
            (if self.ctrl.flag_sprite_table {
                0x1000int
            } else {
                0int
            }) + tile * 16 + (if flip_v {
                7 - row
            } else {
                row
            })
        } else {
            let fine_y = if flip_v {
                15 - row
            } else {
                row
            };
            (if tile & 1 == 0 {
                0int
            } else {
                0x1000int
            }) + (tile & 0xfe) * 16 + fine_y + (if fine_y > 7 {
                8int
            } else {
                0int
            })
        }
    }

    /// Every slot in secondary OAM covers the current scanline.
    pub open spec fn slots_on_line(&self) -> bool {
        forall|k: int|
            0 <= k < self.sprites.count ==> {
                let y = #[trigger] self.secondary_oam@[4 * k];
                y <= self.timing.scanline < y + sprite_height(self.ctrl.flag_sprite_size)
            }
    }

    /// Background pixel (two bits) at fine X, before the left-column mask.
    pub open spec fn background_bits(&self) -> u8 {
        if self.mask.show_background {
            let shift = (15 - self.scroll.x) as u16;
            ((((self.bg.pattern_shift_reg_high >> shift) & 1) << 1) | ((
            self.bg.pattern_shift_reg_low >> shift) & 1)) as u8
        } else {
            0
        }
    }

    /// Palette (two bits) of the background pixel at fine X.
    pub open spec fn background_palette(&self) -> u8 {
        let shift = (7 - self.scroll.x) as u8;
        (((self.bg.palette_shift_reg_high >> shift) & 1) << 1) | ((self.bg.palette_shift_reg_low
            >> shift) & 1)
    }

    /// Sprite pixel (two bits) of the first opaque slot, before the left-column mask.
    pub open spec fn sprite_pixel_bits(&self) -> u8 {
        if self.mask.show_sprites {
            match first_opaque(&self.sprites, 0) {
                Some(i) => sprite_bits(&self.sprites, i),
                None => 0,
            }
        } else {
            0
        }
    }

    /// Index into palette RAM of the pixel at column `x`.
    pub open spec fn pixel_palette_address(&self, x: int) -> int {
        let bg = if x < 8 && !self.mask.show_left_background {
            0
        } else {
            self.background_bits()
        };
        let sp = if x < 8 && !self.mask.show_left_sprites {
            0
        } else {
            self.sprite_pixel_bits()
        };
        let current = match first_opaque(&self.sprites, 0) {
            Some(i) => i,
            None => 0,
        };
        let sprite_address = 0x10 + (self.sprites.attribute_latches@[current] & 3) * 4 + sp;
        let bg_address = self.background_palette() * 4 + bg;
        if bg == 0 && sp != 0 {
            sprite_address
        } else if bg != 0 && sp == 0 {
            bg_address
        } else if bg != 0 && sp != 0 {
            if self.sprites.attribute_latches@[current] & 0x20 == 0 {
                sprite_address
            } else {
                bg_address
            }
        } else {
            0
        }
    }

    /// Whether the pixel at column `x` is a sprite-zero hit.
    pub open spec fn pixel_zero_hit(&self, x: int) -> bool {
        let bg = if x < 8 && !self.mask.show_left_background {
            0
        } else {
            self.background_bits()
        };
        let sp = if x < 8 && !self.mask.show_left_sprites {
            0
        } else {
            self.sprite_pixel_bits()
        };
        bg != 0 && sp != 0 && match first_opaque(&self.sprites, 0) {
            Some(i) => self.sprites.indexes@[i] == 0,
            None => self.sprites.indexes@[0] == 0,
        }
    }

    /// The colour of the pixel at column `x`.
    pub open spec fn pixel_color(&self, x: int) -> Color {
        self.palette_table@[(self.palette_data@[self.pixel_palette_address(x)] & 0x3f) as int]
    }

    /// Sprite slots after one pixel: slots at their X position shift out a
    /// bit, the others count down.
    pub open spec fn sprites_shifted(&self, after: &Sprites) -> bool {
        let s = &self.sprites;
        &&& after.count == s.count
        &&& after.attribute_latches == s.attribute_latches
        &&& after.indexes == s.indexes
        &&& after.wf()
        &&& forall|i: int|
            0 <= i < 8 ==> {
                &&& #[trigger] after.pattern_low@[i] == if i < s.count && s.positions@[i] == 0 {
                    (s.pattern_low@[i] << 1) as u8
                } else {
                    s.pattern_low@[i]
                }
                &&& after.pattern_high@[i] == if i < s.count && s.positions@[i] == 0 {
                    (s.pattern_high@[i] << 1) as u8
                } else {
                    s.pattern_high@[i]
                }
                &&& after.positions@[i] == if i < s.count && s.positions@[i] > 0 {
                    (s.positions@[i] - 1) as u8
                } else {
                    s.positions@[i]
                }
            }
    }

    /// Moves `v` one tile to the right.
    pub fn increment_coarse_x(&mut self)
        requires
            old(self).scroll.v < 0x8000,
        ensures
            *final(self) == (PPU {
                scroll: Scroll { v: coarse_x_incremented(old(self).scroll.v), ..old(self).scroll },
                ..*old(self)
            }),
            final(self).scroll.v < 0x8000,
    {
        proof {
            lemma_increments_in_range(self.scroll.v);
        }
        let v = self.scroll.v;
        if v & 0x001f == 0x1f {
            self.scroll.v = (v & 0xffe0) ^ 0x0400;
        } else {
            self.scroll.v = v + 1;
        }
    }

    /// Moves `v` one pixel row down.
    pub fn increment_y(&mut self)
        requires
            old(self).scroll.v < 0x8000,
        ensures
            *final(self) == (PPU {
                scroll: Scroll { v: y_incremented(old(self).scroll.v), ..old(self).scroll },
                ..*old(self)
            }),
            final(self).scroll.v < 0x8000,
    {
        proof {
            lemma_increments_in_range(self.scroll.v);
        }
        let v = self.scroll.v;
        if (v & 0x7000) >> 12 < 7 {
            self.scroll.v = v + 0x1000;
        } else {
            let v1 = v & 0x8fff;
            let coarse_y = (v & 0x03e0) >> 5;
            assert(coarse_y <= 31) by (bit_vector)
                requires
                    coarse_y == (v & 0x03e0) >> 5,
            ;
            if coarse_y == 29 {
                self.scroll.v = (v1 ^ 0x0800) & !0x03e0u16;
            } else if coarse_y == 31 {
                self.scroll.v = v1 & !0x03e0u16;
            } else {
                self.scroll.v = (v1 & !0x03e0u16) | ((coarse_y + 1) << 5);
            }
        }
    }
}

impl PPU {
    /// Copies the sprites that cover the current scanline into secondary
    /// OAM, at most eight, and flags an overflow when there are more.
    pub fn evaluate_sprites(&mut self)
        requires
            old(self).wf(),
        ensures
            ({
                let sel = sprites_on_line(
                    old(self).oam_data@,
                    old(self).timing.scanline as int,
                    sprite_height(old(self).ctrl.flag_sprite_size),
                    64,
                );
                &&& final(self).sprites.count == if sel.len() < 8 {
                    sel.len()
                } else {
                    8
                }
                &&& forall|k: int|
                    0 <= k < final(self).sprites.count ==> {
                        &&& #[trigger] final(self).sprites.indexes@[k] == sel[k]
                        &&& final(self).secondary_oam@[4 * k] == old(self).oam_data@[4 * sel[k]]
                        &&& final(self).secondary_oam@[4 * k + 1] == old(self).oam_data@[4 * sel[k]
                            + 1]
                        &&& final(self).secondary_oam@[4 * k + 2] == old(self).oam_data@[4 * sel[k]
                            + 2]
                        &&& final(self).secondary_oam@[4 * k + 3] == old(self).oam_data@[4 * sel[k]
                            + 3]
                    }
                &&& final(self).status.sprite_overflow == (old(self).status.sprite_overflow
                    || sel.len() > 8)
            }),
            *final(self) == (PPU {
                sprites: Sprites {
                    count: final(self).sprites.count,
                    indexes: final(self).sprites.indexes,
                    ..old(self).sprites
                },
                secondary_oam: final(self).secondary_oam,
                status: Flags { sprite_overflow: final(self).status.sprite_overflow, ..old(self).status },
                ..*old(self)
            }),
            final(self).wf(),
            final(self).slots_on_line(),
    {
        let height: u16 = if self.ctrl.flag_sprite_size {
            16
        } else {
            8
        };
        let line = self.timing.scanline;
        let ghost oam = self.oam_data@;
        let ghost h = sprite_height(self.ctrl.flag_sprite_size);
        let ghost start = *self;
        let mut count: usize = 0;
        let mut i: usize = 0;
        while i < 64
            invariant
                self.wf(),
                oam == self.oam_data@,
                h == height,
                height <= 16,
                line == self.timing.scanline,
                i <= 64,
                count == if sprites_on_line(oam, line as int, h, i as nat).len() < 8 {
                    sprites_on_line(oam, line as int, h, i as nat).len()
                } else {
                    8
                },
                forall|k: int|
                    0 <= k < count ==> {
                        let sel = sprites_on_line(oam, line as int, h, i as nat);
                        &&& #[trigger] self.sprites.indexes@[k] == sel[k]
                        &&& self.secondary_oam@[4 * k] == oam[4 * sel[k]]
                        &&& self.secondary_oam@[4 * k + 1] == oam[4 * sel[k] + 1]
                        &&& self.secondary_oam@[4 * k + 2] == oam[4 * sel[k] + 2]
                        &&& self.secondary_oam@[4 * k + 3] == oam[4 * sel[k] + 3]
                    },
                self.status.sprite_overflow == (start.status.sprite_overflow || sprites_on_line(
                    oam,
                    line as int,
                    h,
                    i as nat,
                ).len() > 8),
                *self == (PPU {
                    sprites: Sprites {
                        count: self.sprites.count,
                        indexes: self.sprites.indexes,
                        ..start.sprites
                    },
                    secondary_oam: self.secondary_oam,
                    status: Flags { sprite_overflow: self.status.sprite_overflow, ..start.status },
                    ..start
                }),
            decreases 64 - i,
        {
            let y = self.oam_data[i * 4] as u16;
            let ghost sel_i = sprites_on_line(oam, line as int, h, i as nat);
            proof {
                lemma_sprites_on_line(oam, line as int, h, i as nat);
                assert(sprites_on_line(oam, line as int, h, (i + 1) as nat) == if sprite_on_line(
                    oam,
                    i as int,
                    line as int,
                    h,
                ) {
                    sel_i.push(i as int)
                } else {
                    sel_i
                });
            }
            let ghost before = *self;
            let ghost count0 = count;
            if y <= line && line < y + height {
                assert(sprite_on_line(oam, i as int, line as int, h));
                if count < 8 {
                    let base = count * 4;
                    self.secondary_oam.set(base, self.oam_data[i * 4]);
                    self.secondary_oam.set(base + 1, self.oam_data[i * 4 + 1]);
                    self.secondary_oam.set(base + 2, self.oam_data[i * 4 + 2]);
                    self.secondary_oam.set(base + 3, self.oam_data[i * 4 + 3]);
                    self.sprites.indexes.set(count, i as u8);
                    count = count + 1;
                } else {
                    self.status.sprite_overflow = true;
                }
            }
            proof {
                let sel_n = sprites_on_line(oam, line as int, h, (i + 1) as nat);
                assert forall|k: int| 0 <= k < count0 implies sel_n[k] == sel_i[k] by {}
                assert forall|k: int| 0 <= k < count0 implies #[trigger] self.sprites.indexes@[k]
                    == before.sprites.indexes@[k] && self.secondary_oam@[4 * k]
                    == before.secondary_oam@[4 * k] && self.secondary_oam@[4 * k + 1]
                    == before.secondary_oam@[4 * k + 1] && self.secondary_oam@[4 * k + 2]
                    == before.secondary_oam@[4 * k + 2] && self.secondary_oam@[4 * k + 3]
                    == before.secondary_oam@[4 * k + 3] by {}
                if count > count0 {
                    assert(sel_i.len() == count0);
                    assert(sel_n[count0 as int] == i);
                }
                assert forall|k: int| 0 <= k < count implies {
                    &&& #[trigger] self.sprites.indexes@[k] == sel_n[k]
                    &&& self.secondary_oam@[4 * k] == oam[4 * sel_n[k]]
                    &&& self.secondary_oam@[4 * k + 1] == oam[4 * sel_n[k] + 1]
                    &&& self.secondary_oam@[4 * k + 2] == oam[4 * sel_n[k] + 2]
                    &&& self.secondary_oam@[4 * k + 3] == oam[4 * sel_n[k] + 3]
                } by {
                    if k < count0 {
                        assert(before.sprites.indexes@[k] == sel_i[k]);
                        assert(sel_n[k] == sel_i[k]);
                    }
                }
            }
            i = i + 1;
        }
        self.sprites.count = count;
        proof {
            lemma_sprites_on_line(oam, line as int, h, 64);
            let sel = sprites_on_line(oam, line as int, h, 64);
            assert forall|k: int| 0 <= k < self.sprites.count implies {
                let y = #[trigger] self.secondary_oam@[4 * k];
                y <= self.timing.scanline < y + sprite_height(self.ctrl.flag_sprite_size)
            } by {
                assert(self.sprites.indexes@[k] == sel[k]);
                assert(sprite_on_line(oam, sel[k], line as int, h));
            }
        }
    }

    /// Loads each slot's pattern row for the current scanline from the
    /// sprite pattern table, flipped as its attributes ask, with its X
    /// position and attributes.
    pub fn fetch_sprites(&mut self, mapper: &AnyMapper)
        requires
            old(self).wf(),
            mapper.wf(),
            old(self).slots_on_line(),
        ensures
            forall|k: int|
                0 <= k < 8 ==> {
                    let flip_h = old(self).secondary_oam@[4 * k + 2] & 0x40 != 0;
                    let addr = old(self).sprite_row_address(k);
                    &&& #[trigger] final(self).sprites.pattern_low@[k] == if k < old(
                        self,
                    ).sprites.count {
                        if flip_h {
                            reverse_bits(old(self).bus_read(mapper, addr))
                        } else {
                            old(self).bus_read(mapper, addr)
                        }
                    } else {
                        old(self).sprites.pattern_low@[k]
                    }
                    &&& final(self).sprites.pattern_high@[k] == if k < old(self).sprites.count {
                        if flip_h {
                            reverse_bits(old(self).bus_read(mapper, addr + 8))
                        } else {
                            old(self).bus_read(mapper, addr + 8)
                        }
                    } else {
                        old(self).sprites.pattern_high@[k]
                    }
                    &&& final(self).sprites.attribute_latches@[k] == if k < old(
                        self,
                    ).sprites.count {
                        old(self).secondary_oam@[4 * k + 2]
                    } else {
                        old(self).sprites.attribute_latches@[k]
                    }
                    &&& final(self).sprites.positions@[k] == if k < old(self).sprites.count {
                        old(self).secondary_oam@[4 * k + 3]
                    } else {
                        old(self).sprites.positions@[k]
                    }
                },
            *final(self) == (PPU {
                sprites: Sprites {
                    pattern_low: final(self).sprites.pattern_low,
                    pattern_high: final(self).sprites.pattern_high,
                    attribute_latches: final(self).sprites.attribute_latches,
                    positions: final(self).sprites.positions,
                    ..old(self).sprites
                },
                ..*old(self)
            }),
            final(self).wf(),
    {
        let ghost start = *self;
        let count = self.sprites.count;
        let mut i: usize = 0;
        while i < count
            invariant
                start.wf(),
                start.slots_on_line(),
                self.wf(),
                mapper.wf(),
                count == start.sprites.count,
                i <= count,
                forall|k: int|
                    0 <= k < 8 ==> {
                        let flip_h = start.secondary_oam@[4 * k + 2] & 0x40 != 0;
                        let addr = start.sprite_row_address(k);
                        &&& #[trigger] self.sprites.pattern_low@[k] == if k < i {
                            if flip_h {
                                reverse_bits(start.bus_read(mapper, addr))
                            } else {
                                start.bus_read(mapper, addr)
                            }
                        } else {
                            start.sprites.pattern_low@[k]
                        }
                        &&& self.sprites.pattern_high@[k] == if k < i {
                            if flip_h {
                                reverse_bits(start.bus_read(mapper, addr + 8))
                            } else {
                                start.bus_read(mapper, addr + 8)
                            }
                        } else {
                            start.sprites.pattern_high@[k]
                        }
                        &&& self.sprites.attribute_latches@[k] == if k < i {
                            start.secondary_oam@[4 * k + 2]
                        } else {
                            start.sprites.attribute_latches@[k]
                        }
                        &&& self.sprites.positions@[k] == if k < i {
                            start.secondary_oam@[4 * k + 3]
                        } else {
                            start.sprites.positions@[k]
                        }
                    },
                *self == (PPU {
                    sprites: Sprites {
                        pattern_low: self.sprites.pattern_low,
                        pattern_high: self.sprites.pattern_high,
                        attribute_latches: self.sprites.attribute_latches,
                        positions: self.sprites.positions,
                        ..start.sprites
                    },
                    ..start
                }),
            decreases count - i,
        {
            proof {
                reveal(PPU::bus_read);
            }
            let y = self.secondary_oam[4 * i] as usize;
            let tile8 = self.secondary_oam[4 * i + 1];
            let tile = tile8 as usize;
            let attributes = self.secondary_oam[4 * i + 2];
            let x = self.secondary_oam[4 * i + 3];
            let flip_v = attributes & 0x80 != 0;
            let flip_h = attributes & 0x40 != 0;
            assert(y <= self.timing.scanline < y + sprite_height(self.ctrl.flag_sprite_size));
            let row = self.timing.scanline as usize - y;
            let address: usize = if !self.ctrl.flag_sprite_size {
                let base: usize = if self.ctrl.flag_sprite_table {
                    0x1000
                } else {
                    0
                };
                base + tile * 16 + if flip_v {
                    7 - row
                } else {
                    row
                }
            } else {
                let fine_y = if flip_v {
                    15 - row
                } else {
                    row
                };
                let base: usize = if tile8 & 1 == 0 {
                    0
                } else {
                    0x1000
                };
                base + ((tile8 & 0xfe) as usize) * 16 + fine_y + if fine_y > 7 {
                    8
                } else {
                    0
                }
            };
            assert(address == start.sprite_row_address(i as int));
            let ghost before = *self;
            let low = self.read(mapper, address);
            let high = self.read(mapper, address + 8);
            let low = if flip_h {
                reverse(low)
            } else {
                low
            };
            let high = if flip_h {
                reverse(high)
            } else {
                high
            };
            self.sprites.pattern_low.set(i, low);
            self.sprites.pattern_high.set(i, high);
            self.sprites.attribute_latches.set(i, attributes);
            self.sprites.positions.set(i, x);
            proof {
                assert forall|k: int| 0 <= k < 8 implies {
                    let flip_h = start.secondary_oam@[4 * k + 2] & 0x40 != 0;
                    let addr = start.sprite_row_address(k);
                    &&& #[trigger] self.sprites.pattern_low@[k] == if k < i + 1 {
                        if flip_h {
                            reverse_bits(start.bus_read(mapper, addr))
                        } else {
                            start.bus_read(mapper, addr)
                        }
                    } else {
                        start.sprites.pattern_low@[k]
                    }
                    &&& self.sprites.pattern_high@[k] == if k < i + 1 {
                        if flip_h {
                            reverse_bits(start.bus_read(mapper, addr + 8))
                        } else {
                            start.bus_read(mapper, addr + 8)
                        }
                    } else {
                        start.sprites.pattern_high@[k]
                    }
                    &&& self.sprites.attribute_latches@[k] == if k < i + 1 {
                        start.secondary_oam@[4 * k + 2]
                    } else {
                        start.sprites.attribute_latches@[k]
                    }
                    &&& self.sprites.positions@[k] == if k < i + 1 {
                        start.secondary_oam@[4 * k + 3]
                    } else {
                        start.sprites.positions@[k]
                    }
                } by {
                    if k != i {
                        assert(before.sprites.pattern_low@[k] == self.sprites.pattern_low@[k]);
                    }
                }
            }
            i = i + 1;
        }
    }
}

/// The shift registers after one dot: every register moves left by one and
/// the palette registers take the latch's bits.
pub open spec fn bg_shifted(b: Background) -> Background {
    Background {
        pattern_shift_reg_low: (b.pattern_shift_reg_low << 1) as u16,
        pattern_shift_reg_high: (b.pattern_shift_reg_high << 1) as u16,
        palette_shift_reg_low: ((b.palette_shift_reg_low << 1) | (b.palette_latch & 1)) as u8,
        palette_shift_reg_high: ((b.palette_shift_reg_high << 1) | ((b.palette_latch & 2) >> 1)) as u8,
        ..b
    }
}

/// The shift registers after taking the fetched tile into their low bits.
pub open spec fn bg_loaded(b: Background) -> Background {
    Background {
        pattern_shift_reg_low: b.pattern_shift_reg_low | (b.low_tile_byte as u16),
        pattern_shift_reg_high: b.pattern_shift_reg_high | (b.high_tile_byte as u16),
        palette_latch: b.attribute_table_byte,
        ..b
    }
}

/// Over one tile's eight dots, starting with the reload dot, the pattern
/// registers take the tile once into their low byte and shift left eight times.
pub proof fn lemma_tile_span(b: Background)
    ensures
        ({
            let e = bg_shifted(
                bg_shifted(
                    bg_shifted(bg_shifted(bg_shifted(bg_shifted(bg_shifted(bg_shifted(bg_loaded(b))))))),
                ),
            );
            &&& e.pattern_shift_reg_low == ((b.pattern_shift_reg_low | (b.low_tile_byte as u16))
                << 8) as u16
            &&& e.pattern_shift_reg_high == ((b.pattern_shift_reg_high | (b.high_tile_byte as u16))
                << 8) as u16
        }),
{
    let l = b.pattern_shift_reg_low | (b.low_tile_byte as u16);
    let h = b.pattern_shift_reg_high | (b.high_tile_byte as u16);
    assert(((((((((l << 1) << 1) << 1) << 1) << 1) << 1) << 1) << 1) == l << 8) by (bit_vector);
    assert(((((((((h << 1) << 1) << 1) << 1) << 1) << 1) << 1) << 1) == h << 8) by (bit_vector);
}

impl PPU {
    /// Background state after one fetch dot (dots 1-256 and 321-336).
    pub open spec fn fetched_bg(&self, mapper: &AnyMapper) -> Background {
        let v = self.scroll.v;
        let phase = self.timing.cycle % 8;
        let b = if phase == 1 {
            Background {
                nametable_byte: self.bus_read(mapper, (0x2000 | (v & 0x0fff)) as int),
                ..bg_loaded(self.bg)
            }
        } else if phase == 3 {
            Background {
                attribute_table_byte: (self.bus_read(mapper, attribute_address(v) as int)
                    >> attribute_shift(v)) & 3,
                ..self.bg
            }
        } else if phase == 5 {
            Background {
                low_tile_byte: self.bus_read(
                    mapper,
                    tile_address(self.ctrl.flag_background_table, self.bg.nametable_byte, v),
                ),
                ..self.bg
            }
        } else if phase == 7 {
            Background {
                high_tile_byte: self.bus_read(
                    mapper,
                    tile_address(self.ctrl.flag_background_table, self.bg.nametable_byte, v) + 8,
                ),
                ..self.bg
            }
        } else {
            self.bg
        };
        bg_shifted(b)
    }

    /// Nametable byte for the tile at `v`.
    pub fn fetch_nametable_byte(&mut self, mapper: &AnyMapper)
        requires
            old(self).wf(),
            mapper.wf(),
        ensures
            *final(self) == (PPU {
                bg: Background {
                    nametable_byte: old(self).bus_read(
                        mapper,
                        (0x2000 | (old(self).scroll.v & 0x0fff)) as int,
                    ),
                    ..old(self).bg
                },
                ..*old(self)
            }),
    {
        let address = (0x2000 | (self.scroll.v & 0x0fff)) as usize;
        self.bg.nametable_byte = self.read(mapper, address);
    }

    /// Two-bit palette for the tile at `v` from its attribute byte.
    pub fn fetch_attribute_table_byte(&mut self, mapper: &AnyMapper)
        requires
            old(self).wf(),
            mapper.wf(),
        ensures
            *final(self) == (PPU {
                bg: Background {
                    attribute_table_byte: (old(self).bus_read(
                        mapper,
                        attribute_address(old(self).scroll.v) as int,
                    ) >> attribute_shift(old(self).scroll.v)) & 3,
                    ..old(self).bg
                },
                ..*old(self)
            }),
    {
        let v = self.scroll.v;
        let address = (0x23c0 | (v & 0x0c00) | ((v >> 4) & 0x38) | ((v >> 2) & 0x07)) as usize;
        let byte = self.read(mapper, address);
        let coarse_x = v & 0x001f;
        let coarse_y = (v & 0x03e0) >> 5;
        let shift = (((coarse_y / 2) % 2) * 4 + ((coarse_x / 2) % 2) * 2) as u8;
        self.bg.attribute_table_byte = (byte >> shift) & 3;
    }

    /// Address of the low pattern plane of the fetched tile's current row.
    fn tile_row_address(&self) -> (r: usize)
        requires
            self.wf(),
        ensures
            r == tile_address(self.ctrl.flag_background_table, self.bg.nametable_byte, self.scroll.v),
            r + 8 <= 0x1fff,
    {
        let base: usize = if self.ctrl.flag_background_table {
            0x1000
        } else {
            0
        };
        let v = self.scroll.v;
        let fine_y = ((v >> 12) & 7) as usize;
        assert((v >> 12) & 7 <= 7) by (bit_vector);
        base + (self.bg.nametable_byte as usize) * 16 + fine_y
    }

    /// Low pattern plane of the fetched tile.
    pub fn fetch_low_tile_byte(&mut self, mapper: &AnyMapper)
        requires
            old(self).wf(),
            mapper.wf(),
        ensures
            *final(self) == (PPU {
                bg: Background {
                    low_tile_byte: old(self).bus_read(
                        mapper,
                        tile_address(
                            old(self).ctrl.flag_background_table,
                            old(self).bg.nametable_byte,
                            old(self).scroll.v,
                        ),
                    ),
                    ..old(self).bg
                },
                ..*old(self)
            }),
    {
        let address = self.tile_row_address();
        self.bg.low_tile_byte = self.read(mapper, address);
    }

    /// High pattern plane of the fetched tile.
    pub fn fetch_high_tile_byte(&mut self, mapper: &AnyMapper)
        requires
            old(self).wf(),
            mapper.wf(),
        ensures
            *final(self) == (PPU {
                bg: Background {
                    high_tile_byte: old(self).bus_read(
                        mapper,
                        tile_address(
                            old(self).ctrl.flag_background_table,
                            old(self).bg.nametable_byte,
                            old(self).scroll.v,
                        ) + 8,
                    ),
                    ..old(self).bg
                },
                ..*old(self)
            }),
    {
        let address = self.tile_row_address();
        self.bg.high_tile_byte = self.read(mapper, address + 8);
    }

    /// Shifts the background registers by one pixel.
    pub fn update_shift_registers(&mut self)
        ensures
            *final(self) == (PPU { bg: bg_shifted(old(self).bg), ..*old(self) }),
    {
        self.bg.pattern_shift_reg_low = self.bg.pattern_shift_reg_low << 1;
        self.bg.pattern_shift_reg_high = self.bg.pattern_shift_reg_high << 1;
        self.bg.palette_shift_reg_low = (self.bg.palette_shift_reg_low << 1) | (
        self.bg.palette_latch & 1);
        self.bg.palette_shift_reg_high = (self.bg.palette_shift_reg_high << 1) | ((
        self.bg.palette_latch & 2) >> 1);
    }

    /// On a reload dot (cycle 1 mod 8), takes the fetched tile into the low
    /// byte of the pattern registers and its palette into the latch.
    pub fn load_shift_registers(&mut self)
        ensures
            *final(self) == if old(self).timing.cycle % 8 == 1 {
                PPU { bg: bg_loaded(old(self).bg), ..*old(self) }
            } else {
                *old(self)
            },
    {
        if self.timing.cycle % 8 == 1 {
            self.bg.pattern_shift_reg_low = self.bg.pattern_shift_reg_low | (
            self.bg.low_tile_byte as u16);
            self.bg.pattern_shift_reg_high = self.bg.pattern_shift_reg_high | (
            self.bg.high_tile_byte as u16);
            self.bg.palette_latch = self.bg.attribute_table_byte;
        }
    }

    /// One background fetch dot: the fetch for this phase of the tile, the
    /// coarse X step at its end, and the shift.
    pub fn fetch_background(&mut self, mapper: &AnyMapper)
        requires
            old(self).wf(),
            mapper.wf(),
        ensures
            *final(self) == (PPU {
                bg: old(self).fetched_bg(mapper),
                scroll: Scroll {
                    v: if old(self).timing.cycle % 8 == 0 {
                        coarse_x_incremented(old(self).scroll.v)
                    } else {
                        old(self).scroll.v
                    },
                    ..old(self).scroll
                },
                ..*old(self)
            }),
            final(self).wf(),
    {
        reveal(PPU::bus_read);
        let phase = self.timing.cycle % 8;
        if phase == 0 {
            self.increment_coarse_x();
        } else if phase == 1 {
            self.load_shift_registers();
            self.fetch_nametable_byte(mapper);
        } else if phase == 3 {
            self.fetch_attribute_table_byte(mapper);
        } else if phase == 5 {
            self.fetch_low_tile_byte(mapper);
        } else if phase == 7 {
            self.fetch_high_tile_byte(mapper);
        }
        self.update_shift_registers();
    }
}

impl PPU {
    /// The slot whose pixel shows, and its two-bit colour (0 when none is opaque).
    fn select_sprite(&self) -> (r: (usize, u8))
        requires
            self.wf(),
        ensures
            match first_opaque(&self.sprites, 0) {
                Some(i) => r.0 == i && r.1 == sprite_bits(&self.sprites, i) && r.1 != 0,
                None => r.0 == 0 && r.1 == 0,
            },
            r.0 < 8,
            r.1 <= 3,
    {
        let count = self.sprites.count;
        let mut i: usize = 0;
        while i < count
            invariant
                self.wf(),
                count == self.sprites.count,
                i <= count,
                first_opaque(&self.sprites, 0) == first_opaque(&self.sprites, i as int),
            decreases count - i,
        {
            let high = self.sprites.pattern_high[i];
            let low = self.sprites.pattern_low[i];
            let bits = (((high >> 7) & 1) << 1) | ((low >> 7) & 1);
            assert(bits <= 3) by (bit_vector)
                requires
                    bits == (((high >> 7) & 1) << 1) | ((low >> 7) & 1),
            ;
            if self.sprites.positions[i] == 0 && bits != 0 {
                return (i, bits);
            }
            i = i + 1;
        }
        (0, 0)
    }

    /// Moves every active sprite slot on by one pixel.
    fn shift_sprites(&mut self)
        requires
            old(self).wf(),
        ensures
            old(self).sprites_shifted(&final(self).sprites),
            *final(self) == (PPU { sprites: final(self).sprites, ..*old(self) }),
            final(self).wf(),
    {
        let ghost start = *self;
        let count = self.sprites.count;
        let mut i: usize = 0;
        while i < count
            invariant
                self.wf(),
                count == start.sprites.count,
                i <= count,
                self.sprites.count == start.sprites.count,
                self.sprites.attribute_latches == start.sprites.attribute_latches,
                self.sprites.indexes == start.sprites.indexes,
                *self == (PPU { sprites: self.sprites, ..start }),
                forall|k: int|
                    0 <= k < 8 ==> {
                        let s = &start.sprites;
                        &&& #[trigger] self.sprites.pattern_low@[k] == if k < i && s.positions@[k]
                            == 0 {
                            (s.pattern_low@[k] << 1) as u8
                        } else {
                            s.pattern_low@[k]
                        }
                        &&& self.sprites.pattern_high@[k] == if k < i && s.positions@[k] == 0 {
                            (s.pattern_high@[k] << 1) as u8
                        } else {
                            s.pattern_high@[k]
                        }
                        &&& self.sprites.positions@[k] == if k < i && s.positions@[k] > 0 {
                            (s.positions@[k] - 1) as u8
                        } else {
                            s.positions@[k]
                        }
                    },
            decreases count - i,
        {
            let ghost before = *self;
            let position = self.sprites.positions[i];
            if position == 0 {
                let low = self.sprites.pattern_low[i] << 1;
                let high = self.sprites.pattern_high[i] << 1;
                self.sprites.pattern_low.set(i, low);
                self.sprites.pattern_high.set(i, high);
            } else {
                self.sprites.positions.set(i, position - 1);
            }
            proof {
                assert forall|k: int| 0 <= k < 8 implies {
                    let s = &start.sprites;
                    &&& #[trigger] self.sprites.pattern_low@[k] == if k < i + 1 && s.positions@[k]
                        == 0 {
                        (s.pattern_low@[k] << 1) as u8
                    } else {
                        s.pattern_low@[k]
                    }
                    &&& self.sprites.pattern_high@[k] == if k < i + 1 && s.positions@[k] == 0 {
                        (s.pattern_high@[k] << 1) as u8
                    } else {
                        s.pattern_high@[k]
                    }
                    &&& self.sprites.positions@[k] == if k < i + 1 && s.positions@[k] > 0 {
                        (s.positions@[k] - 1) as u8
                    } else {
                        s.positions@[k]
                    }
                } by {
                    assert(before.sprites.pattern_low@[k] == if k < i && start.sprites.positions@[k]
                        == 0 {
                        (start.sprites.pattern_low@[k] << 1) as u8
                    } else {
                        start.sprites.pattern_low@[k]
                    });
                }
            }
            i = i + 1;
        }
    }

    /// Composes the pixel at the current dot from the background and sprite
    /// pipelines, records a sprite-zero hit, and moves the sprites on.
    pub fn render_pixel(&mut self) -> (r: (usize, usize, Color))
        requires
            old(self).wf(),
            1 <= old(self).timing.cycle <= 256,
            old(self).timing.scanline < 240,
        ensures
            ({
                let x = old(self).timing.cycle - 1;
                &&& r == (x as usize, old(self).timing.scanline as usize, old(self).pixel_color(x))
                &&& final(self).status.sprite_zero_hit == (old(self).status.sprite_zero_hit || old(
                    self,
                ).pixel_zero_hit(x))
            }),
            if old(self).mask.show_sprites {
                old(self).sprites_shifted(&final(self).sprites)
            } else {
                final(self).sprites == old(self).sprites
            },
            *final(self) == (PPU {
                sprites: final(self).sprites,
                status: Flags { sprite_zero_hit: final(self).status.sprite_zero_hit, ..old(self).status },
                ..*old(self)
            }),
            final(self).wf(),
    {
        let x = (self.timing.cycle - 1) as usize;
        let y = self.timing.scanline as usize;
        let fine_x = self.scroll.x;
        let mut background_pixel: u8 = if self.mask.show_background {
            let shift = (15 - fine_x) as u16;
            ((((self.bg.pattern_shift_reg_high >> shift) & 1) << 1) | ((
            self.bg.pattern_shift_reg_low >> shift) & 1)) as u8
        } else {
            0
        };
        let (current, bits) = self.select_sprite();
        let mut sprite_pixel: u8 = if self.mask.show_sprites {
            bits
        } else {
            0
        };
        if self.mask.show_sprites {
            self.shift_sprites();
        }
        let shift = 7 - fine_x;
        let palette_offset = (((self.bg.palette_shift_reg_high >> shift) & 1) << 1) | ((
        self.bg.palette_shift_reg_low >> shift) & 1);
        if x < 8 {
            if !self.mask.show_left_background {
                background_pixel = 0;
            }
            if !self.mask.show_left_sprites {
                sprite_pixel = 0;
            }
        }
        let attributes = self.sprites.attribute_latches[current];
        proof {
            let ph = self.bg.pattern_shift_reg_high;
            let pl = self.bg.pattern_shift_reg_low;
            let sh = (15 - fine_x) as u16;
            let qh = self.bg.palette_shift_reg_high;
            let ql = self.bg.palette_shift_reg_low;
            assert((((ph >> sh) & 1) << 1) | ((pl >> sh) & 1) <= 3) by (bit_vector);
            assert((((qh >> shift) & 1) << 1) | ((ql >> shift) & 1) <= 3) by (bit_vector);
            assert(attributes & 3 <= 3) by (bit_vector);
        }
        let palette_address: u8 = if background_pixel == 0 && sprite_pixel != 0 {
            0x10 + (attributes & 3) * 4 + sprite_pixel
        } else if background_pixel != 0 && sprite_pixel == 0 {
            palette_offset * 4 + background_pixel
        } else if background_pixel != 0 && sprite_pixel != 0 {
            if attributes & 0x20 == 0 {
                0x10 + (attributes & 3) * 4 + sprite_pixel
            } else {
                palette_offset * 4 + background_pixel
            }
        } else {
            0
        };
        if background_pixel != 0 && sprite_pixel != 0 && self.sprites.indexes[current] == 0 {
            self.status.sprite_zero_hit = true;
        }
        let pixel = self.palette_data[palette_address as usize];
        assert(pixel & 0x3f < 64) by (bit_vector);
        assert(self.palette_table@.len() == 64);
        (x, y, self.palette_table[(pixel & 0x3f) as usize])
    }
}

} // verus!
