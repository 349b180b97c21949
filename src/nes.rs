use vstd::prelude::*;

use crate::cartridge::{decode_error, decoded_from, get_mapper, mapper_id, AnyMapper, DecodeError, Mapper};
use crate::cpu::status::status_of;
use crate::cpu::CPU;
use crate::ppu::{Color, Flags, Nmi, Scroll, Timing, PPU};
use vstd::arithmetic::div_mod::lemma_fundamental_div_mod_converse;

verus! {

pub const PIXEL_WIDTH: usize = 256;
pub const PIXEL_HEIGHT: usize = 240;

/// Bytes of an RGB frame scaled by `scaling` in both directions.
pub open spec fn frame_len(scaling: int) -> int {
    PIXEL_WIDTH * scaling * 3 * PIXEL_HEIGHT * scaling
}

/// Offset in the frame of channel `ch` of the copy (`i`, `j`) of pixel (`x`, `y`).
pub open spec fn frame_offset(scaling: int, x: int, y: int, i: int, j: int, ch: int) -> int {
    (y * scaling + i) * (PIXEL_WIDTH * 3 * scaling) + (x * scaling + j) * 3 + ch
}

/// Byte `k` of the frame belongs to the block drawn for pixel (`x`, `y`).
pub open spec fn pixel_block(scaling: int, x: int, y: int, k: int) -> bool {
    let row = k / (PIXEL_WIDTH * 3 * scaling);
    let column = (k % (PIXEL_WIDTH * 3 * scaling)) / 3;
    &&& y * scaling <= row < y * scaling + scaling
    &&& x * scaling <= column < x * scaling + scaling
}

proof fn lemma_offset_in_block(s: int, x: int, y: int, i: int, j: int, ch: int)
    requires
        0 <= x < 256,
        0 <= y < 240,
        0 <= i < s,
        0 <= j < s,
        0 <= ch < 3,
    ensures
        pixel_block(s, x, y, frame_offset(s, x, y, i, j, ch)),
{
    let row = y * s + i;
    let column = x * s + j;
    assert(column * 3 + ch < 768 * s && 0 <= column) by (nonlinear_arith)
        requires
            column == x * s + j,
            0 <= x < 256,
            0 <= j < s,
            0 <= ch < 3,
    ;
    lemma_fundamental_div_mod_converse(frame_offset(s, x, y, i, j, ch), 768 * s, row, column * 3 + ch);
    lemma_fundamental_div_mod_converse(column * 3 + ch, 3, column, ch);
}

proof fn lemma_offset_in_frame(s: int, x: int, y: int, i: int, j: int, ch: int)
    requires
        0 <= x < 256,
        0 <= y < 240,
        0 <= i < s,
        0 <= j < s,
        0 <= ch < 3,
    ensures
        0 <= frame_offset(s, x, y, i, j, ch) < frame_len(s),
{
    assert(0 <= (y * s + i) * (768 * s) + (x * s + j) * 3 + ch) by (nonlinear_arith)
        requires
            0 <= x,
            0 <= y,
            0 <= i,
            0 <= j,
            0 <= ch,
            0 <= s,
    ;
    assert(y * s + i < 240 * s && x * s + j < 256 * s) by (nonlinear_arith)
        requires
            0 <= x < 256,
            0 <= y < 240,
            0 <= i < s,
            0 <= j < s,
    ;
    assert((y * s + i) * (768 * s) + (x * s + j) * 3 + ch < 256 * s * 3 * 240 * s) by (nonlinear_arith)
        requires
            y * s + i < 240 * s,
            y * s + i >= 0,
            x * s + j < 256 * s,
            x * s + j >= 0,
            0 <= ch < 3,
            s > 0,
    ;
}

/// The console: the CPU, which owns the bus, the PPU and the cartridge, and
/// the RGB frame the PPU's pixels are drawn into.
pub struct NES {
    pub cpu: CPU,
    pub screen_buffer: Vec<u8>,
    pub scaling: usize,
}

impl NES {
    pub open spec fn wf(&self) -> bool {
        &&& self.cpu.wf()
        &&& self.screen_buffer.len() == frame_len(self.scaling as int)
    }

    /// A console running the image `buffer`, with a frame scaled by `scaling`.
    pub fn new(buffer: Vec<u8>, file_path: String, scaling: usize) -> (r: Result<NES, DecodeError>)
        requires
            frame_len(scaling as int) <= usize::MAX,
        ensures
            match r {
                Ok(nes) => {
                    &&& decode_error(buffer@) is None
                    &&& nes.cpu.mapper.id() == mapper_id(buffer@)
                    &&& decoded_from(nes.cpu.mapper.cart(), buffer@, file_path@)
                    &&& nes.wf()
                    &&& nes.scaling == scaling
                    &&& forall|i: int| 0 <= i < nes.screen_buffer.len() ==> #[trigger] nes.screen_buffer@[i] == 0
                    &&& nes.cpu.ppu.timing == (Timing { cycle: 0, scanline: 0, frame: 0, end_of_frame: false })
                    &&& nes.cpu.ppu.scroll == (Scroll { v: 0, t: 0, x: 0, w: 0, f: 0 })
                    &&& nes.cpu.ppu.nmi == (Nmi {
                        nmi_previous: false,
                        nmi_output: false,
                        nmi_delay: 0,
                        trigger_nmi: false,
                    })
                    &&& nes.cpu.ppu.status == (Flags {
                        in_vblank: false,
                        sprite_zero_hit: false,
                        sprite_overflow: false,
                    })
                    &&& forall|i: int| 0 <= i < 0x800 ==> #[trigger] nes.cpu.memory@[i] == 0
                    &&& nes.cpu.cycles == 0 && nes.cpu.dma_delay == 0 && nes.cpu.interrupt is None
                    &&& nes.cpu.a == 0 && nes.cpu.x == 0 && nes.cpu.y == 0
                    &&& nes.cpu.p == status_of(0x24)
                    &&& nes.cpu.sp == 0xfd
                    &&& nes.cpu.pc == nes.cpu.mapper.spec_read(0xfffc) as u16 | ((
                    nes.cpu.mapper.spec_read(0xfffd) as u16) << 8)
                },
                Err(e) => if decode_error(buffer@) is Some {
                    decode_error(buffer@) == Some(e)
                } else {
                    mapper_id(buffer@) > 3 && e == DecodeError::UnsupportedMapper(mapper_id(buffer@))
                },
            },
    {
        let mapper = match get_mapper(buffer, file_path) {
            Ok(m) => m,
            Err(e) => return Err(e),
        };
        let ppu = PPU::new();
        let cpu = CPU::new(mapper, ppu);
        let ghost sc = scaling as int;
        assert(sc * sc <= 256 * sc * 3 * 240 * sc && 184320 * (sc * sc) == 256 * sc * 3 * 240 * sc)
            by (nonlinear_arith)
            requires
                sc >= 0,
        ;
        let square = scaling * scaling;
        let len = 184320 * square;
        Ok(NES { cpu, screen_buffer: vec![0u8; len], scaling })
    }

    /// One CPU step; returns the CPU cycles it took.
    pub fn step_cpu(&mut self) -> (r: u64)
        requires
            old(self).wf(),
        ensures
            final(self).wf(),
            *final(self) == (NES { cpu: final(self).cpu, ..*old(self) }),
            old(self).cpu.dma_delay > 0 ==> r == 1 && final(self).cpu == (CPU {
                dma_delay: (old(self).cpu.dma_delay - 1) as usize,
                ..old(self).cpu
            }),
            old(self).cpu.dma_delay == 0 ==> r == final(self).cpu.cycles.wrapping_sub(
                old(self).cpu.cycles,
            ),
            old(self).cpu.dma_delay == 0 && !old(self).cpu.ppu.nmi.trigger_nmi
                && old(self).cpu.interrupt is None ==> old(self).cpu.decoded_and_executed(
                &final(self).cpu,
            ),
    {
        self.cpu.step()
    }

    /// Draws a pixel as a `scaling` x `scaling` block of RGB bytes.
    fn draw(&mut self, x: usize, y: usize, color: Color)
        requires
            old(self).wf(),
            x < 256,
            y < 240,
        ensures
            final(self).wf(),
            final(self).cpu == old(self).cpu,
            final(self).scaling == old(self).scaling,
            forall|k: int|
                0 <= k < old(self).screen_buffer.len() && !pixel_block(
                    old(self).scaling as int,
                    x as int,
                    y as int,
                    k,
                ) ==> #[trigger] final(self).screen_buffer@[k] == old(self).screen_buffer@[k],
            forall|i: int, j: int|
                0 <= i < old(self).scaling && 0 <= j < old(self).scaling ==> {
                    &&& #[trigger] final(self).screen_buffer@[frame_offset(
                        old(self).scaling as int,
                        x as int,
                        y as int,
                        i,
                        j,
                        0,
                    )] == color.0
                    &&& final(self).screen_buffer@[frame_offset(
                        old(self).scaling as int,
                        x as int,
                        y as int,
                        i,
                        j,
                        1,
                    )] == color.1
                    &&& final(self).screen_buffer@[frame_offset(
                        old(self).scaling as int,
                        x as int,
                        y as int,
                        i,
                        j,
                        2,
                    )] == color.2
                },
    {
        let s = self.scaling;
        let ghost gs = s as int;
        let mut i: usize = 0;
        while i < s
            invariant
                gs == s as int,
                self.wf(),
                self.cpu == old(self).cpu,
                self.scaling == s,
                x < 256,
                y < 240,
                i <= s,
                forall|k: int|
                    0 <= k < self.screen_buffer.len() && !pixel_block(gs, x as int, y as int, k)
                        ==> #[trigger] self.screen_buffer@[k] == old(self).screen_buffer@[k],
                forall|i2: int, j2: int|
                    0 <= i2 < i && 0 <= j2 < s ==> {
                        &&& #[trigger] self.screen_buffer@[frame_offset(gs, x as int, y as int, i2, j2, 0)]
                            == color.0
                        &&& self.screen_buffer@[frame_offset(gs, x as int, y as int, i2, j2, 1)] == color.1
                        &&& self.screen_buffer@[frame_offset(gs, x as int, y as int, i2, j2, 2)] == color.2
                    },
            decreases s - i,
        {
            let mut j: usize = 0;
            while j < s
                invariant
                    gs == s as int,
                    self.wf(),
                    self.cpu == old(self).cpu,
                    self.scaling == s,
                    x < 256,
                    y < 240,
                    i < s,
                    j <= s,
                    forall|k: int|
                        0 <= k < self.screen_buffer.len() && !pixel_block(gs, x as int, y as int, k)
                            ==> #[trigger] self.screen_buffer@[k] == old(self).screen_buffer@[k],
                    forall|i2: int, j2: int|
                        0 <= i2 < s && 0 <= j2 < s && (i2 < i || (i2 == i && j2 < j)) ==> {
                            &&& #[trigger] self.screen_buffer@[frame_offset(gs, x as int, y as int, i2, j2, 0)]
                                == color.0
                            &&& self.screen_buffer@[frame_offset(gs, x as int, y as int, i2, j2, 1)]
                                == color.1
                            &&& self.screen_buffer@[frame_offset(gs, x as int, y as int, i2, j2, 2)]
                                == color.2
                        },
                decreases s - j,
            {
                proof {
                    lemma_offset_in_frame(gs, x as int, y as int, i as int, j as int, 2);
                    lemma_offsets_distinct(gs, x as int, y as int, i as int, j as int);
                    lemma_offset_bounds(gs, x as int, y as int, i as int, j as int);
                    lemma_offset_in_block(gs, x as int, y as int, i as int, j as int, 0);
                    lemma_offset_in_block(gs, x as int, y as int, i as int, j as int, 1);
                    lemma_offset_in_block(gs, x as int, y as int, i as int, j as int, 2);
                }
                let offset = (y * s + i) * (PIXEL_WIDTH * 3 * s) + (x * s + j) * 3;
                let ghost before = self.screen_buffer@;
                assert(offset == frame_offset(gs, x as int, y as int, i as int, j as int, 0));
                self.screen_buffer.set(offset, color.0);
                self.screen_buffer.set(offset + 1, color.1);
                self.screen_buffer.set(offset + 2, color.2);
                proof {
                    assert forall|i2: int, j2: int|
                        0 <= i2 < s && 0 <= j2 < s && (i2 < i || (i2 == i && j2 < j + 1)) implies {
                        &&& #[trigger] self.screen_buffer@[frame_offset(gs, x as int, y as int, i2, j2, 0)]
                            == color.0
                        &&& self.screen_buffer@[frame_offset(gs, x as int, y as int, i2, j2, 1)] == color.1
                        &&& self.screen_buffer@[frame_offset(gs, x as int, y as int, i2, j2, 2)] == color.2
                    } by {
                        lemma_offset_in_frame(gs, x as int, y as int, i2, j2, 0);
                        lemma_offset_in_frame(gs, x as int, y as int, i2, j2, 1);
                        lemma_offset_in_frame(gs, x as int, y as int, i2, j2, 2);
                        if i2 < i || (i2 == i && j2 < j) {
                            assert(before[frame_offset(gs, x as int, y as int, i2, j2, 0)] == color.0);
                            assert(frame_offset(gs, x as int, y as int, i2, j2, 0) != frame_offset(gs, x as int, y as int, i as int, j as int, 0));
                            assert(frame_offset(gs, x as int, y as int, i2, j2, 0) != frame_offset(gs, x as int, y as int, i as int, j as int, 1));
                            assert(frame_offset(gs, x as int, y as int, i2, j2, 0) != frame_offset(gs, x as int, y as int, i as int, j as int, 2));
                            assert(frame_offset(gs, x as int, y as int, i2, j2, 1) != frame_offset(gs, x as int, y as int, i as int, j as int, 0));
                            assert(frame_offset(gs, x as int, y as int, i2, j2, 1) != frame_offset(gs, x as int, y as int, i as int, j as int, 1));
                            assert(frame_offset(gs, x as int, y as int, i2, j2, 1) != frame_offset(gs, x as int, y as int, i as int, j as int, 2));
                            assert(frame_offset(gs, x as int, y as int, i2, j2, 2) != frame_offset(gs, x as int, y as int, i as int, j as int, 0));
                            assert(frame_offset(gs, x as int, y as int, i2, j2, 2) != frame_offset(gs, x as int, y as int, i as int, j as int, 1));
                            assert(frame_offset(gs, x as int, y as int, i2, j2, 2) != frame_offset(gs, x as int, y as int, i as int, j as int, 2));
                        } else {
                            assert(frame_offset(gs, x as int, y as int, i2, j2, 1) == offset + 1);
                            assert(frame_offset(gs, x as int, y as int, i2, j2, 2) == offset + 2);
                        }
                    }
                }
                j = j + 1;
            }
            i = i + 1;
        }
    }

    /// One PPU dot; a pixel it emits is drawn into the frame.
    pub fn step_ppu(&mut self)
        requires
            old(self).wf(),
        ensures
            final(self).wf(),
            final(self).scaling == old(self).scaling,
            *final(self) == (NES {
                cpu: CPU { ppu: final(self).cpu.ppu, ..old(self).cpu },
                screen_buffer: final(self).screen_buffer,
                ..*old(self)
            }),
            (final(self).cpu.ppu.timing.cycle, final(self).cpu.ppu.timing.scanline, final(self).cpu.ppu.timing.frame)
                == old(self).cpu.ppu.timing.clocked(),
            final(self).cpu.ppu.timing.end_of_frame == (old(self).cpu.ppu.timing.cycle == 256
                && old(self).cpu.ppu.timing.scanline == 240),
            old(self).cpu.ppu.pixel_dot() ==> forall|i: int, j: int|
                0 <= i < old(self).scaling && 0 <= j < old(self).scaling ==> {
                    let color = old(self).cpu.ppu.pixel_color(old(self).cpu.ppu.timing.cycle - 1);
                    &&& #[trigger] final(self).screen_buffer@[frame_offset(
                        old(self).scaling as int,
                        old(self).cpu.ppu.timing.cycle - 1,
                        old(self).cpu.ppu.timing.scanline as int,
                        i,
                        j,
                        0,
                    )] == color.0
                    &&& final(self).screen_buffer@[frame_offset(
                        old(self).scaling as int,
                        old(self).cpu.ppu.timing.cycle - 1,
                        old(self).cpu.ppu.timing.scanline as int,
                        i,
                        j,
                        1,
                    )] == color.1
                    &&& final(self).screen_buffer@[frame_offset(
                        old(self).scaling as int,
                        old(self).cpu.ppu.timing.cycle - 1,
                        old(self).cpu.ppu.timing.scanline as int,
                        i,
                        j,
                        2,
                    )] == color.2
                },
            !old(self).cpu.ppu.pixel_dot() ==> final(self).screen_buffer == old(
                self,
            ).screen_buffer,
            old(self).cpu.ppu.pixel_dot() ==> forall|k: int|
                0 <= k < old(self).screen_buffer.len() && !pixel_block(
                    old(self).scaling as int,
                    old(self).cpu.ppu.timing.cycle - 1,
                    old(self).cpu.ppu.timing.scanline as int,
                    k,
                ) ==> #[trigger] final(self).screen_buffer@[k] == old(self).screen_buffer@[k],
    {
        let ghost p0 = self.cpu.ppu;
        let pixel = self.cpu.ppu.step(&self.cpu.mapper);
        match pixel {
            Some((x, y, color)) => {
                assert(x as int == p0.timing.cycle - 1 && y as int == p0.timing.scanline as int);
                assert(color == p0.pixel_color(p0.timing.cycle - 1));
                self.draw(x, y, color);
            },
            None => {},
        }
    }

    /// Latches controller 1's buttons (bit 0 A ... bit 7 Right).
    pub fn poll_inputs(&mut self, buttons: u8)
        ensures
            final(self).cpu.controllers.0.buttons == buttons,
            *final(self) == (NES {
                cpu: CPU {
                    controllers: (final(self).cpu.controllers.0, old(self).cpu.controllers.1),
                    ..old(self).cpu
                },
                ..*old(self)
            }),
            final(self).cpu.controllers.0 == (crate::controller::Controller {
                buttons,
                ..old(self).cpu.controllers.0
            }),
    {
        let mut c = self.cpu.controllers.0;
        c.set_buttons(buttons);
        self.cpu.controllers.0 = c;
    }

    /// Battery-backed RAM to save at shutdown, if the cartridge has it.
    pub fn save_battery(&self) -> (r: Option<Vec<u8>>)
        ensures
            r matches Some(v) ==> self.cpu.mapper.spec_battery() == Some(v@),
            r is None ==> self.cpu.mapper.spec_battery() is None,
    {
        self.cpu.mapper.save_battery()
    }

    /// Restores battery-backed RAM saved by an earlier session.
    pub fn load_battery(&mut self, data: &Vec<u8>)
        requires
            old(self).wf(),
        ensures
            old(self).cpu.mapper.spec_battery_loaded(data@, &final(self).cpu.mapper),
            *final(self) == (NES {
                cpu: CPU { mapper: final(self).cpu.mapper, ..old(self).cpu },
                ..*old(self)
            }),
            final(self).wf(),
    {
        self.cpu.mapper.load_battery(data);
    }
}

proof fn lemma_offset_bounds(s: int, x: int, y: int, i: int, j: int)
    requires
        0 <= x < 256,
        0 <= y < 240,
        0 <= i < s,
        0 <= j < s,
        frame_len(s) <= usize::MAX,
    ensures
        y * s + i <= usize::MAX,
        768 * s <= usize::MAX,
        (y * s + i) * (768 * s) <= usize::MAX,
        x * s + j <= usize::MAX,
        (x * s + j) * 3 <= usize::MAX,
        (y * s + i) * (768 * s) + (x * s + j) * 3 + 2 < frame_len(s),
{
    lemma_offset_in_frame(s, x, y, i, j, 2);
    assert(y * s + i <= 256 * s * 3 * 240 * s && 768 * s <= 256 * s * 3 * 240 * s && (y * s + i) * (
    768 * s) <= 256 * s * 3 * 240 * s && x * s + j <= 256 * s * 3 * 240 * s && (x * s + j) * 3
        <= 256 * s * 3 * 240 * s) by (nonlinear_arith)
        requires
            0 <= x < 256,
            0 <= y < 240,
            0 <= i < s,
            0 <= j < s,
    ;
}

/// Distinct copies of a pixel, and distinct channels, land on distinct bytes.
proof fn lemma_offsets_distinct(s: int, x: int, y: int, i: int, j: int)
    requires
        0 <= x < 256,
        0 <= y < 240,
        0 <= i < s,
        0 <= j < s,
    ensures
        forall|i2: int, j2: int, c1: int, c2: int|
            0 <= i2 < s && 0 <= j2 < s && (i2 < i || (i2 == i && j2 < j)) && 0 <= c1 < 3 && 0 <= c2
                < 3 ==> #[trigger] frame_offset(s, x, y, i2, j2, c1) != #[trigger] frame_offset(
                s,
                x,
                y,
                i,
                j,
                c2,
            ),
{
    assert forall|i2: int, j2: int, c1: int, c2: int|
        0 <= i2 < s && 0 <= j2 < s && (i2 < i || (i2 == i && j2 < j)) && 0 <= c1 < 3 && 0 <= c2
            < 3 implies #[trigger] frame_offset(s, x, y, i2, j2, c1) != #[trigger] frame_offset(
        s,
        x,
        y,
        i,
        j,
        c2,
    ) by {
        if i2 < i {
            assert((y * s + i2) * (768 * s) + (x * s + j2) * 3 + c1 < (y * s + i) * (768 * s) + (x
                * s + j) * 3 + c2) by (nonlinear_arith)
                requires
                    0 <= i2 < i,
                    0 <= j2 < s,
                    0 <= j < s,
                    0 <= x < 256,
                    0 <= c1 < 3,
                    0 <= c2 < 3,
            ;
        } else {
            assert((x * s + j2) * 3 + c1 < (x * s + j) * 3 + c2) by (nonlinear_arith)
                requires
                    j2 < j,
                    0 <= c1 < 3,
                    0 <= c2 < 3,
            ;
        }
    }
}

} // verus!
