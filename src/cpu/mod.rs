pub mod addressing_modes;
pub mod opcodes;
pub mod status;
pub mod unofficial_opcodes;

use vstd::prelude::*;

pub use crate::cpu::addressing_modes::Mode;
use crate::cartridge::{AnyMapper, Mapper};
use crate::controller::Controller;
use crate::cpu::status::{status_byte, status_of, Status};
use crate::ppu::registers::{
    address_written, control_of, lemma_data_advanced_in_range, mask_of, scroll_written,
};
use crate::ppu::{nmi_edge, Flags, Nmi, Scroll, PPU};

verus! {

/// Operand of an instruction: the effective address its mode resolved to.
#[derive(Copy, Clone, Debug)]
pub struct StepInfo {
    pub address: usize,
    pub mode: Mode,
}

/// A pending hardware interrupt.
#[derive(Copy, Clone, Debug, PartialEq, Eq, Structural)]
pub enum Interrupt {
    NMI,
    IRQ,
}

/// The operation an opcode performs. The unofficial ones from `AHX` on are
/// documented no-ops here; `STP` is one too.
#[derive(Copy, Clone, Debug, PartialEq, Eq, Structural)]
pub enum Instr {
    ADC, AND, ASL, BCC, BCS, BEQ, BIT, BMI, BNE, BPL, BRK, BVC, BVS, CLC, CLD, CLI, CLV, CMP,
    CPX, CPY, DEC, DEX, DEY, EOR, INC, INX, INY, JMP, JSR, LDA, LDX, LDY, LSR, NOP, ORA, PHA,
    PHP, PLA, PLP, ROL, ROR, RTI, RTS, SBC, SEC, SED, SEI, STA, STX, STY, TAX, TAY, TSX, TXA,
    TXS, TYA, STP, AHX, ALR, ANC, ARR, AXS, DCP, ISC, LAS, LAX, RLA, RRA, SAX, SHX, SHY, SLO,
    SRE, TAS, XAA,
}

/// The decode table: for each opcode its operation, addressing mode, base
/// cycles, extra cycles on a page cross, and size in bytes.
pub struct OpcodeTable {
    pub handlers: Vec<Instr>,
    pub modes: Vec<Mode>,
    pub cycles: Vec<u8>,
    pub page_cycles: Vec<u8>,
    pub sizes: Vec<u8>,
}

/// The 6502 with its bus: 2 KiB of RAM, the PPU, the two pads and the cartridge.
pub struct CPU {
    pub a: u8,
    pub x: u8,
    pub y: u8,
    pub pc: u16,
    pub sp: u8,
    pub p: Status,
    pub interrupt: Option<Interrupt>,
    pub memory: Vec<u8>,
    /// CPU cycles left to stall for an OAM DMA.
    pub dma_delay: usize,
    pub cycles: u64,
    pub mapper: AnyMapper,
    pub ppu: PPU,
    /// Controller 1 ($4016) and controller 2 ($4017).
    pub controllers: (Controller, Controller),
    pub table: OpcodeTable,
}

pub open spec fn saturating(d: int) -> usize {
    if d > usize::MAX {
        usize::MAX
    } else {
        d as usize
    }
}

impl CPU {
    pub open spec fn wf(&self) -> bool {
        &&& self.memory.len() == 0x800
        &&& self.mapper.wf()
        &&& self.ppu.wf()
        &&& self.table.handlers.len() == 256
        &&& self.table.modes.len() == 256
        &&& self.table.cycles.len() == 256
        &&& self.table.page_cycles.len() == 256
        &&& self.table.sizes.len() == 256
    }

    /// Value and state after a read of PPU register `reg` ($2000-$2007).
    pub open spec fn ppu_read_result(&self, reg: int) -> (u8, CPU) {
        let p = self.ppu;
        if reg == 0x2002 {
            (
                p.status_byte(),
                CPU {
                    ppu: PPU {
                        scroll: Scroll { w: 0, ..p.scroll },
                        status: Flags { in_vblank: false, ..p.status },
                        nmi: nmi_edge(p.nmi, false),
                        ..p
                    },
                    ..*self
                },
            )
        } else if reg == 0x2004 {
            (p.oam_data@[p.oam_address as int], *self)
        } else if reg == 0x2007 {
            (
                p.data_read_value(&self.mapper),
                CPU {
                    ppu: PPU {
                        scroll: Scroll { v: p.data_advanced_v(), ..p.scroll },
                        read_buffer_data: p.data_read_buffer(&self.mapper),
                        ..p
                    },
                    ..*self
                },
            )
        } else {
            (0, *self)
        }
    }

    /// Value a read of `address` returns, and the state after it (reads of
    /// PPU registers and controllers have side effects).
    #[verifier::opaque]
    pub open spec fn read_result(&self, address: int) -> (u8, CPU) {
        if 0 <= address <= 0x1fff {
            (self.memory@[address % 0x800], *self)
        } else if 0x2000 <= address <= 0x3fff {
            self.ppu_read_result(0x2000 + address % 8)
        } else if address == 0x4016 {
            (
                self.controllers.0.read_value(),
                CPU { controllers: (self.controllers.0.after_read(), self.controllers.1), ..*self },
            )
        } else if address == 0x4017 {
            (
                self.controllers.1.read_value(),
                CPU { controllers: (self.controllers.0, self.controllers.1.after_read()), ..*self },
            )
        } else if 0x4000 <= address <= 0x401f {
            (0, *self)
        } else {
            (self.mapper.spec_read(address), *self)
        }
    }

    /// Bytes and state after the `n` first reads of an OAM DMA from `page`.
    pub open spec fn dma_reads(&self, page: int, n: nat) -> (Seq<u8>, CPU)
        decreases n,
    {
        if n == 0 {
            (Seq::empty(), *self)
        } else {
            let (bytes, s) = self.dma_reads(page, (n - 1) as nat);
            let (b, s2) = s.read_result(page + n - 1);
            (bytes.push(b), s2)
        }
    }

    /// `after` is the state once `value` is written to PPU register `reg`.
    pub open spec fn ppu_write_done(&self, reg: int, value: u8, after: &CPU) -> bool {
        let p = PPU { data_buffer: value, ..self.ppu };
        if reg == 0x2000 {
            *after == CPU {
                ppu: PPU {
                    ctrl: control_of(value),
                    nmi: nmi_edge(Nmi { nmi_output: value & 0x80 != 0, ..p.nmi }, p.status.in_vblank),
                    scroll: Scroll { t: (p.scroll.t & 0xf3ff) | (((value as u16) & 3) << 10), ..p.scroll },
                    ..p
                },
                ..*self
            }
        } else if reg == 0x2001 {
            *after == CPU { ppu: PPU { mask: mask_of(value), ..p }, ..*self }
        } else if reg == 0x2003 {
            *after == CPU { ppu: PPU { oam_address: value, ..p }, ..*self }
        } else if reg == 0x2004 {
            &&& after.ppu.oam_data@ == p.oam_data@.update(p.oam_address as int, value)
            &&& *after == CPU {
                ppu: PPU {
                    oam_data: after.ppu.oam_data,
                    oam_address: p.oam_address.wrapping_add(1),
                    ..p
                },
                ..*self
            }
        } else if reg == 0x2005 {
            *after == CPU { ppu: PPU { scroll: scroll_written(p.scroll, value), ..p }, ..*self }
        } else if reg == 0x2006 {
            *after == CPU { ppu: PPU { scroll: address_written(p.scroll, value), ..p }, ..*self }
        } else if reg == 0x2007 {
            let v = p.scroll.v as int;
            &&& after.ppu.nametable_data@ == p.nametable_after(self.mapper.spec_mirror(), v, value)
            &&& after.ppu.palette_data@ == p.palette_after(v, value)
            &&& if v <= 0x1fff {
                self.mapper.spec_written(v, value, &after.mapper)
            } else {
                after.mapper == self.mapper
            }
            &&& *after == CPU {
                ppu: PPU {
                    nametable_data: after.ppu.nametable_data,
                    palette_data: after.ppu.palette_data,
                    scroll: Scroll { v: p.data_advanced_v(), ..p.scroll },
                    ..p
                },
                mapper: after.mapper,
                ..*self
            }
        } else {
            *after == CPU { ppu: p, ..*self }
        }
    }

    /// `after` is the state once `value` is written to $4014: 256 bytes read
    /// from page `value` replace OAM, and the CPU stalls 513 cycles, 514 when
    /// the current cycle is odd.
    pub open spec fn dma_done(&self, value: u8, after: &CPU) -> bool {
        let s0 = CPU { ppu: PPU { data_buffer: value, ..self.ppu }, ..*self };
        let (bytes, s1) = s0.dma_reads(value * 0x100, 256);
        let extra = if self.cycles % 2 == 1 {
            514int
        } else {
            513int
        };
        &&& after.ppu.oam_data@ == bytes
        &&& *after == CPU {
            ppu: PPU { oam_data: after.ppu.oam_data, ..s1.ppu },
            dma_delay: saturating(s1.dma_delay + extra),
            ..s1
        }
    }

    /// `after` is the state once `value` is written at `address`.
    #[verifier::opaque]
    pub open spec fn write_done(&self, address: int, value: u8, after: &CPU) -> bool {
        if 0 <= address <= 0x1fff {
            &&& after.memory@ == self.memory@.update(address % 0x800, value)
            &&& *after == CPU { memory: after.memory, ..*self }
        } else if 0x2000 <= address <= 0x3fff {
            self.ppu_write_done(0x2000 + address % 8, value, after)
        } else if address == 0x4014 {
            self.dma_done(value, after)
        } else if address == 0x4016 {
            *after == CPU {
                controllers: (
                    self.controllers.0.after_write(value),
                    self.controllers.1.after_write(value),
                ),
                ..*self
            }
        } else if 0x4000 <= address <= 0x401f {
            *after == *self
        } else {
            &&& self.mapper.spec_written(address, value, &after.mapper)
            &&& *after == CPU { mapper: after.mapper, ..*self }
        }
    }

    /// A read's side effects keep the CPU well formed and touch only the
    /// PPU's registers and the controllers.
    pub proof fn lemma_read_result(&self, address: int)
        requires
            self.wf(),
        ensures
            ({
                let s = self.read_result(address).1;
                &&& s.wf()
                &&& s.memory == self.memory
                &&& s.mapper == self.mapper
                &&& s.a == self.a && s.x == self.x && s.y == self.y
                &&& s.pc == self.pc && s.sp == self.sp && s.p == self.p
                &&& s.cycles == self.cycles && s.dma_delay == self.dma_delay
                &&& s.interrupt == self.interrupt
                &&& s.ppu.nametable_data == self.ppu.nametable_data
                &&& s.ppu.palette_data == self.ppu.palette_data
                &&& s.ppu.oam_data == self.ppu.oam_data
            }),
    {
        reveal(CPU::read_result);
        lemma_data_advanced_in_range(&self.ppu);
    }

    fn read_ppu_register(&mut self, reg: usize) -> (r: u8)
        requires
            old(self).wf(),
            0x2000 <= reg <= 0x2007,
        ensures
            (r, *final(self)) == old(self).ppu_read_result(reg as int),
            final(self).wf(),
    {
        if reg == 0x2002 {
            self.ppu.read_status()
        } else if reg == 0x2004 {
            self.ppu.read_oam_data()
        } else if reg == 0x2007 {
            self.ppu.read_data(&self.mapper)
        } else {
            0
        }
    }

    /// CPU bus read.
    pub fn read(&mut self, address: usize) -> (r: u8)
        requires
            old(self).wf(),
            address <= 0xffff,
        ensures
            (r, *final(self)) == old(self).read_result(address as int),
            final(self).wf(),
    {
        proof {
            reveal(CPU::read_result);
        }
        if address <= 0x1fff {
            self.memory[address % 0x800]
        } else if address <= 0x3fff {
            self.read_ppu_register(0x2000 + address % 8)
        } else if address == 0x4016 {
            let mut c = self.controllers.0;
            let value = c.read();
            self.controllers.0 = c;
            value
        } else if address == 0x4017 {
            let mut c = self.controllers.1;
            let value = c.read();
            self.controllers.1 = c;
            value
        } else if address <= 0x401f {
            0
        } else {
            self.mapper.read(address)
        }
    }

    fn write_ppu_register(&mut self, reg: usize, value: u8)
        requires
            old(self).wf(),
            0x2000 <= reg <= 0x2007,
        ensures
            old(self).ppu_write_done(reg as int, value, final(self)),
            final(self).wf(),
    {
        self.ppu.data_buffer = value;
        if reg == 0x2000 {
            self.ppu.write_control(value);
        } else if reg == 0x2001 {
            self.ppu.write_mask(value);
        } else if reg == 0x2003 {
            self.ppu.write_oam_address(value);
        } else if reg == 0x2004 {
            self.ppu.write_oam_data(value);
        } else if reg == 0x2005 {
            self.ppu.write_scroll(value);
        } else if reg == 0x2006 {
            self.ppu.write_address(value);
        } else if reg == 0x2007 {
            self.ppu.write_data(&mut self.mapper, value);
        }
    }

    /// OAM DMA: copies page `value` into OAM and starts the stall.
    fn oam_dma(&mut self, value: u8)
        requires
            old(self).wf(),
        ensures
            old(self).dma_done(value, final(self)),
            final(self).wf(),
    {
        self.ppu.data_buffer = value;
        let ghost s0 = *self;
        let page = (value as usize) * 0x100;
        let mut data: Vec<u8> = Vec::new();
        let mut i: usize = 0;
        while i < 256
            invariant
                self.wf(),
                i <= 256,
                page == value * 0x100,
                (data@, *self) == s0.dma_reads(page as int, i as nat),
                data.len() == i,
            decreases 256 - i,
        {
            let b = self.read(page + i);
            data.push(b);
            i = i + 1;
        }
        proof {
            s0.lemma_dma_reads(page as int, 256);
        }
        self.ppu.write_oam_dma(data);
        let extra: usize = if self.cycles % 2 == 1 {
            514
        } else {
            513
        };
        self.dma_delay = self.dma_delay.saturating_add(extra);
    }

    /// The DMA's reads leave the cycle count and the well-formedness alone.
    pub proof fn lemma_dma_reads(&self, page: int, n: nat)
        requires
            self.wf(),
        ensures
            self.dma_reads(page, n).1.wf(),
            self.dma_reads(page, n).1.cycles == self.cycles,
            self.dma_reads(page, n).0.len() == n,
            ({
                let s = self.dma_reads(page, n).1;
                &&& s.a == self.a && s.x == self.x && s.y == self.y
                &&& s.pc == self.pc && s.sp == self.sp && s.p == self.p
                &&& s.interrupt == self.interrupt
            }),
        decreases n,
    {
        if n > 0 {
            self.lemma_dma_reads(page, (n - 1) as nat);
            let s = self.dma_reads(page, (n - 1) as nat).1;
            s.lemma_read_result(page + n - 1);
        }
    }

    /// CPU bus write.
    pub fn write(&mut self, address: usize, value: u8)
        requires
            old(self).wf(),
            address <= 0xffff,
        ensures
            old(self).write_done(address as int, value, final(self)),
            final(self).wf(),
    {
        proof {
            reveal(CPU::write_done);
        }
        if address <= 0x1fff {
            self.memory.set(address % 0x800, value);
        } else if address <= 0x3fff {
            self.write_ppu_register(0x2000 + address % 8, value);
        } else if address == 0x4014 {
            self.oam_dma(value);
        } else if address == 0x4016 {
            let mut c0 = self.controllers.0;
            let mut c1 = self.controllers.1;
            c0.write(value);
            c1.write(value);
            self.controllers = (c0, c1);
        } else if address <= 0x401f {
        } else {
            self.mapper.write(address, value);
        }
    }
}

/// Operation of each opcode.
pub open spec fn opcode_handlers() -> Seq<Instr> {
    seq![
        Instr::BRK, Instr::ORA, Instr::STP, Instr::SLO, Instr::NOP, Instr::ORA, Instr::ASL, Instr::SLO,
        Instr::PHP, Instr::ORA, Instr::ASL, Instr::ANC, Instr::NOP, Instr::ORA, Instr::ASL, Instr::SLO,
        Instr::BPL, Instr::ORA, Instr::STP, Instr::SLO, Instr::NOP, Instr::ORA, Instr::ASL, Instr::SLO,
        Instr::CLC, Instr::ORA, Instr::NOP, Instr::SLO, Instr::NOP, Instr::ORA, Instr::ASL, Instr::SLO,
        Instr::JSR, Instr::AND, Instr::STP, Instr::RLA, Instr::BIT, Instr::AND, Instr::ROL, Instr::RLA,
        Instr::PLP, Instr::AND, Instr::ROL, Instr::ANC, Instr::BIT, Instr::AND, Instr::ROL, Instr::RLA,
        Instr::BMI, Instr::AND, Instr::STP, Instr::RLA, Instr::NOP, Instr::AND, Instr::ROL, Instr::RLA,
        Instr::SEC, Instr::AND, Instr::NOP, Instr::RLA, Instr::NOP, Instr::AND, Instr::ROL, Instr::RLA,
        Instr::RTI, Instr::EOR, Instr::STP, Instr::SRE, Instr::NOP, Instr::EOR, Instr::LSR, Instr::SRE,
        Instr::PHA, Instr::EOR, Instr::LSR, Instr::ALR, Instr::JMP, Instr::EOR, Instr::LSR, Instr::SRE,
        Instr::BVC, Instr::EOR, Instr::STP, Instr::SRE, Instr::NOP, Instr::EOR, Instr::LSR, Instr::SRE,
        Instr::CLI, Instr::EOR, Instr::NOP, Instr::SRE, Instr::NOP, Instr::EOR, Instr::LSR, Instr::SRE,
        Instr::RTS, Instr::ADC, Instr::STP, Instr::RRA, Instr::NOP, Instr::ADC, Instr::ROR, Instr::RRA,
        Instr::PLA, Instr::ADC, Instr::ROR, Instr::ARR, Instr::JMP, Instr::ADC, Instr::ROR, Instr::RRA,
        Instr::BVS, Instr::ADC, Instr::STP, Instr::RRA, Instr::NOP, Instr::ADC, Instr::ROR, Instr::RRA,
        Instr::SEI, Instr::ADC, Instr::NOP, Instr::RRA, Instr::NOP, Instr::ADC, Instr::ROR, Instr::RRA,
        Instr::NOP, Instr::STA, Instr::NOP, Instr::SAX, Instr::STY, Instr::STA, Instr::STX, Instr::SAX,
        Instr::DEY, Instr::NOP, Instr::TXA, Instr::XAA, Instr::STY, Instr::STA, Instr::STX, Instr::SAX,
        Instr::BCC, Instr::STA, Instr::STP, Instr::AHX, Instr::STY, Instr::STA, Instr::STX, Instr::SAX,
        Instr::TYA, Instr::STA, Instr::TXS, Instr::TAS, Instr::SHY, Instr::STA, Instr::SHX, Instr::AHX,
        Instr::LDY, Instr::LDA, Instr::LDX, Instr::LAX, Instr::LDY, Instr::LDA, Instr::LDX, Instr::LAX,
        Instr::TAY, Instr::LDA, Instr::TAX, Instr::LAX, Instr::LDY, Instr::LDA, Instr::LDX, Instr::LAX,
        Instr::BCS, Instr::LDA, Instr::STP, Instr::LAX, Instr::LDY, Instr::LDA, Instr::LDX, Instr::LAX,
        Instr::CLV, Instr::LDA, Instr::TSX, Instr::LAS, Instr::LDY, Instr::LDA, Instr::LDX, Instr::LAX,
        Instr::CPY, Instr::CMP, Instr::NOP, Instr::DCP, Instr::CPY, Instr::CMP, Instr::DEC, Instr::DCP,
        Instr::INY, Instr::CMP, Instr::DEX, Instr::AXS, Instr::CPY, Instr::CMP, Instr::DEC, Instr::DCP,
        Instr::BNE, Instr::CMP, Instr::STP, Instr::DCP, Instr::NOP, Instr::CMP, Instr::DEC, Instr::DCP,
        Instr::CLD, Instr::CMP, Instr::NOP, Instr::DCP, Instr::NOP, Instr::CMP, Instr::DEC, Instr::DCP,
        Instr::CPX, Instr::SBC, Instr::NOP, Instr::ISC, Instr::CPX, Instr::SBC, Instr::INC, Instr::ISC,
        Instr::INX, Instr::SBC, Instr::NOP, Instr::SBC, Instr::CPX, Instr::SBC, Instr::INC, Instr::ISC,
        Instr::BEQ, Instr::SBC, Instr::STP, Instr::ISC, Instr::NOP, Instr::SBC, Instr::INC, Instr::ISC,
        Instr::SED, Instr::SBC, Instr::NOP, Instr::ISC, Instr::NOP, Instr::SBC, Instr::INC, Instr::ISC,
    ]
}

/// Addressing mode of each opcode.
pub open spec fn opcode_modes() -> Seq<Mode> {
    seq![
        Mode::IMP, Mode::IDX, Mode::IMP, Mode::IDX, Mode::ZPG, Mode::ZPG, Mode::ZPG, Mode::ZPG,
        Mode::IMP, Mode::IMM, Mode::ACC, Mode::IMM, Mode::ABS, Mode::ABS, Mode::ABS, Mode::ABS,
        Mode::REL, Mode::INX, Mode::IMP, Mode::INX, Mode::ZPX, Mode::ZPX, Mode::ZPX, Mode::ZPX,
        Mode::IMP, Mode::ABY, Mode::IMP, Mode::ABY, Mode::ABX, Mode::ABX, Mode::ABX, Mode::ABX,
        Mode::ABS, Mode::IDX, Mode::IMP, Mode::IDX, Mode::ZPG, Mode::ZPG, Mode::ZPG, Mode::ZPG,
        Mode::IMP, Mode::IMM, Mode::ACC, Mode::IMM, Mode::ABS, Mode::ABS, Mode::ABS, Mode::ABS,
        Mode::REL, Mode::INX, Mode::IMP, Mode::INX, Mode::ZPX, Mode::ZPX, Mode::ZPX, Mode::ZPX,
        Mode::IMP, Mode::ABY, Mode::IMP, Mode::ABY, Mode::ABX, Mode::ABX, Mode::ABX, Mode::ABX,
        Mode::IMP, Mode::IDX, Mode::IMP, Mode::IDX, Mode::ZPG, Mode::ZPG, Mode::ZPG, Mode::ZPG,
        Mode::IMP, Mode::IMM, Mode::ACC, Mode::IMM, Mode::ABS, Mode::ABS, Mode::ABS, Mode::ABS,
        Mode::REL, Mode::INX, Mode::IMP, Mode::INX, Mode::ZPX, Mode::ZPX, Mode::ZPX, Mode::ZPX,
        Mode::IMP, Mode::ABY, Mode::IMP, Mode::ABY, Mode::ABX, Mode::ABX, Mode::ABX, Mode::ABX,
        Mode::IMP, Mode::IDX, Mode::IMP, Mode::IDX, Mode::ZPG, Mode::ZPG, Mode::ZPG, Mode::ZPG,
        Mode::IMP, Mode::IMM, Mode::ACC, Mode::IMM, Mode::IND, Mode::ABS, Mode::ABS, Mode::ABS,
        Mode::REL, Mode::INX, Mode::IMP, Mode::INX, Mode::ZPX, Mode::ZPX, Mode::ZPX, Mode::ZPX,
        Mode::IMP, Mode::ABY, Mode::IMP, Mode::ABY, Mode::ABX, Mode::ABX, Mode::ABX, Mode::ABX,
        Mode::IMM, Mode::IDX, Mode::IMM, Mode::IDX, Mode::ZPG, Mode::ZPG, Mode::ZPG, Mode::ZPG,
        Mode::IMP, Mode::IMM, Mode::IMP, Mode::IMM, Mode::ABS, Mode::ABS, Mode::ABS, Mode::ABS,
        Mode::REL, Mode::INX, Mode::IMP, Mode::INX, Mode::ZPX, Mode::ZPX, Mode::ZPY, Mode::ZPY,
        Mode::IMP, Mode::ABY, Mode::IMP, Mode::ABY, Mode::ABX, Mode::ABX, Mode::ABY, Mode::ABY,
        Mode::IMM, Mode::IDX, Mode::IMM, Mode::IDX, Mode::ZPG, Mode::ZPG, Mode::ZPG, Mode::ZPG,
        Mode::IMP, Mode::IMM, Mode::IMP, Mode::IMM, Mode::ABS, Mode::ABS, Mode::ABS, Mode::ABS,
        Mode::REL, Mode::INX, Mode::IMP, Mode::INX, Mode::ZPX, Mode::ZPX, Mode::ZPY, Mode::ZPY,
        Mode::IMP, Mode::ABY, Mode::IMP, Mode::ABY, Mode::ABX, Mode::ABX, Mode::ABY, Mode::ABY,
        Mode::IMM, Mode::IDX, Mode::IMM, Mode::IDX, Mode::ZPG, Mode::ZPG, Mode::ZPG, Mode::ZPG,
        Mode::IMP, Mode::IMM, Mode::IMP, Mode::IMM, Mode::ABS, Mode::ABS, Mode::ABS, Mode::ABS,
        Mode::REL, Mode::INX, Mode::IMP, Mode::INX, Mode::ZPX, Mode::ZPX, Mode::ZPX, Mode::ZPX,
        Mode::IMP, Mode::ABY, Mode::IMP, Mode::ABY, Mode::ABX, Mode::ABX, Mode::ABX, Mode::ABX,
        Mode::IMM, Mode::IDX, Mode::IMM, Mode::IDX, Mode::ZPG, Mode::ZPG, Mode::ZPG, Mode::ZPG,
        Mode::IMP, Mode::IMM, Mode::IMP, Mode::IMM, Mode::ABS, Mode::ABS, Mode::ABS, Mode::ABS,
        Mode::REL, Mode::INX, Mode::IMP, Mode::INX, Mode::ZPX, Mode::ZPX, Mode::ZPX, Mode::ZPX,
        Mode::IMP, Mode::ABY, Mode::IMP, Mode::ABY, Mode::ABX, Mode::ABX, Mode::ABX, Mode::ABX,
    ]
}

/// Base cycle count of each opcode.
pub open spec fn opcode_cycles() -> Seq<u8> {
    seq![
        7u8, 6, 2, 8, 3, 3, 5, 5, 3, 2, 2, 2, 4, 4, 6, 6,
        2, 5, 2, 8, 4, 4, 6, 6, 2, 4, 2, 7, 4, 4, 7, 7,
        6, 6, 2, 8, 3, 3, 5, 5, 4, 2, 2, 2, 4, 4, 6, 6,
        2, 5, 2, 8, 4, 4, 6, 6, 2, 4, 2, 7, 4, 4, 7, 7,
        6, 6, 2, 8, 3, 3, 5, 5, 3, 2, 2, 2, 3, 4, 6, 6,
        2, 5, 2, 8, 4, 4, 6, 6, 2, 4, 2, 7, 4, 4, 7, 7,
        6, 6, 2, 8, 3, 3, 5, 5, 4, 2, 2, 2, 5, 4, 6, 6,
        2, 5, 2, 8, 4, 4, 6, 6, 2, 4, 2, 7, 4, 4, 7, 7,
        2, 6, 2, 6, 3, 3, 3, 3, 2, 2, 2, 2, 4, 4, 4, 4,
        2, 6, 2, 6, 4, 4, 4, 4, 2, 5, 2, 5, 5, 5, 5, 5,
        2, 6, 2, 6, 3, 3, 3, 3, 2, 2, 2, 2, 4, 4, 4, 4,
        2, 5, 2, 5, 4, 4, 4, 4, 2, 4, 2, 4, 4, 4, 4, 4,
        2, 6, 2, 8, 3, 3, 5, 5, 2, 2, 2, 2, 4, 4, 6, 6,
        2, 5, 2, 8, 4, 4, 6, 6, 2, 4, 2, 7, 4, 4, 7, 7,
        2, 6, 2, 8, 3, 3, 5, 5, 2, 2, 2, 2, 4, 4, 6, 6,
        2, 5, 2, 8, 4, 4, 6, 6, 2, 4, 2, 7, 4, 4, 7, 7,
    ]
}

/// Extra cycles of each opcode when indexing crosses a page.
pub open spec fn opcode_page_cycles() -> Seq<u8> {
    seq![
        0u8, 0, 0, 0, 0, 0, 0, 0, 0, 0, 0, 0, 0, 0, 0, 0,
        1, 1, 0, 0, 0, 0, 0, 0, 0, 1, 0, 0, 1, 1, 0, 0,
        0, 0, 0, 0, 0, 0, 0, 0, 0, 0, 0, 0, 0, 0, 0, 0,
        1, 1, 0, 0, 0, 0, 0, 0, 0, 1, 0, 0, 1, 1, 0, 0,
        0, 0, 0, 0, 0, 0, 0, 0, 0, 0, 0, 0, 0, 0, 0, 0,
        1, 1, 0, 0, 0, 0, 0, 0, 0, 1, 0, 0, 1, 1, 0, 0,
        0, 0, 0, 0, 0, 0, 0, 0, 0, 0, 0, 0, 0, 0, 0, 0,
        1, 1, 0, 0, 0, 0, 0, 0, 0, 1, 0, 0, 1, 1, 0, 0,
        0, 0, 0, 0, 0, 0, 0, 0, 0, 0, 0, 0, 0, 0, 0, 0,
        1, 0, 0, 0, 0, 0, 0, 0, 0, 0, 0, 0, 0, 0, 0, 0,
        0, 0, 0, 0, 0, 0, 0, 0, 0, 0, 0, 0, 0, 0, 0, 0,
        1, 1, 0, 1, 0, 0, 0, 0, 0, 1, 0, 1, 1, 1, 1, 1,
        0, 0, 0, 0, 0, 0, 0, 0, 0, 0, 0, 0, 0, 0, 0, 0,
        1, 1, 0, 0, 0, 0, 0, 0, 0, 1, 0, 0, 1, 1, 0, 0,
        0, 0, 0, 0, 0, 0, 0, 0, 0, 0, 0, 0, 0, 0, 0, 0,
        1, 1, 0, 0, 0, 0, 0, 0, 0, 1, 0, 0, 1, 1, 0, 0,
    ]
}

/// Size in bytes of each opcode; the PC moves on by it.
pub open spec fn opcode_sizes() -> Seq<u8> {
    seq![
        2u8, 2, 0, 0, 2, 2, 2, 0, 1, 2, 1, 0, 3, 3, 3, 0,
        2, 2, 0, 0, 2, 2, 2, 0, 1, 3, 1, 0, 3, 3, 3, 0,
        3, 2, 0, 0, 2, 2, 2, 0, 1, 2, 1, 0, 3, 3, 3, 0,
        2, 2, 0, 0, 2, 2, 2, 0, 1, 3, 1, 0, 3, 3, 3, 0,
        1, 2, 0, 0, 2, 2, 2, 0, 1, 2, 1, 0, 3, 3, 3, 0,
        2, 2, 0, 0, 2, 2, 2, 0, 1, 3, 1, 0, 3, 3, 3, 0,
        1, 2, 0, 0, 2, 2, 2, 0, 1, 2, 1, 0, 3, 3, 3, 0,
        2, 2, 0, 0, 2, 2, 2, 0, 1, 3, 1, 0, 3, 3, 3, 0,
        2, 2, 0, 0, 2, 2, 2, 0, 1, 0, 1, 0, 3, 3, 3, 0,
        2, 2, 0, 0, 2, 2, 2, 0, 1, 3, 1, 0, 0, 3, 0, 0,
        2, 2, 2, 0, 2, 2, 2, 0, 1, 2, 1, 0, 3, 3, 3, 0,
        2, 2, 0, 0, 2, 2, 2, 0, 1, 3, 1, 0, 3, 3, 3, 0,
        2, 2, 0, 0, 2, 2, 2, 0, 1, 2, 1, 0, 3, 3, 3, 0,
        2, 2, 0, 0, 2, 2, 2, 0, 1, 3, 1, 0, 3, 3, 3, 0,
        2, 2, 0, 0, 2, 2, 2, 0, 1, 2, 1, 0, 3, 3, 3, 0,
        2, 2, 0, 0, 2, 2, 2, 0, 1, 3, 1, 0, 3, 3, 3, 0,
    ]
}

/// Stack slot for a stack pointer value.
pub open spec fn stack_push(mem: Seq<u8>, sp: u8, value: u8) -> Seq<u8> {
    mem.update(0x100 + sp, value)
}

/// Program counter after a taken branch: the operand is a signed offset.
pub open spec fn branch_target(pc: u16, offset: u8) -> u16 {
    if offset < 0x80 {
        pc.wrapping_add(offset as u16)
    } else {
        pc.wrapping_sub((0x100 - offset) as u16)
    }
}

/// Two addresses lie in different 256-byte pages.
pub open spec fn crosses_page(a: int, b: int) -> bool {
    a / 0x100 != b / 0x100
}

/// Two addresses lie in different 256-byte pages.
pub fn page_crossed(address1: usize, address2: usize) -> (r: bool)
    ensures
        r == crosses_page(address1 as int, address2 as int),
{
    address1 / 0x100 != address2 / 0x100
}

impl CPU {
    /// Writes change no register but the DMA stall.
    pub proof fn lemma_write_done(&self, address: int, value: u8, after: &CPU)
        requires
            self.wf(),
            self.write_done(address, value, after),
        ensures
            after.a == self.a && after.x == self.x && after.y == self.y,
            after.pc == self.pc && after.sp == self.sp && after.p == self.p,
            after.cycles == self.cycles,
            after.interrupt == self.interrupt,
    {
        reveal(CPU::write_done);
        if address == 0x4014 {
            let s0 = CPU { ppu: PPU { data_buffer: value, ..self.ppu }, ..*self };
            s0.lemma_dma_reads(value * 0x100, 256);
        }
    }

    /// Cartridge space reads have no side effects.
    pub proof fn lemma_read_cartridge(&self, address: int)
        requires
            0x4020 <= address <= 0xffff,
        ensures
            self.read_result(address) == (self.mapper.spec_read(address), *self),
    {
        reveal(CPU::read_result);
    }

    /// RAM reads have no side effects.
    pub proof fn lemma_read_ram(&self, address: int)
        requires
            0 <= address <= 0x1fff,
        ensures
            self.read_result(address) == (self.memory@[address % 0x800], *self),
    {
        reveal(CPU::read_result);
    }

    /// The little-endian word the cartridge holds at `address`.
    pub open spec fn vector(&self, address: int) -> u16 {
        ((self.mapper.spec_read(address + 1) as u16) << 8) | (self.mapper.spec_read(address) as u16)
    }

    /// State after a taken branch whose offset is read from `address`: one
    /// cycle, two more when the target is in another page.
    pub open spec fn after_branch(&self, address: int) -> CPU {
        let (offset, s) = self.read_result(address);
        let target = branch_target(s.pc, offset);
        CPU {
            pc: target,
            cycles: s.cycles.wrapping_add(
                (if crosses_page(s.pc as int, target as int) {
                    3u64
                } else {
                    1u64
                }),
            ),
            ..s
        }
    }

    /// Pushes a byte at $0100+SP; SP moves down.
    pub fn push(&mut self, value: u8)
        requires
            old(self).wf(),
        ensures
            final(self).memory@ == stack_push(old(self).memory@, old(self).sp, value),
            *final(self) == (CPU {
                memory: final(self).memory,
                sp: old(self).sp.wrapping_sub(1),
                ..*old(self)
            }),
            final(self).wf(),
    {
        proof {
            reveal(CPU::write_done);
        }
        let address = 0x100 + self.sp as usize;
        self.write(address, value);
        self.sp = self.sp.wrapping_sub(1);
    }

    /// Pushes a word, high byte first.
    pub fn push_u16(&mut self, value: u16)
        requires
            old(self).wf(),
        ensures
            final(self).memory@ == stack_push(
                stack_push(old(self).memory@, old(self).sp, (value >> 8) as u8),
                old(self).sp.wrapping_sub(1),
                (value & 0xff) as u8,
            ),
            *final(self) == (CPU {
                memory: final(self).memory,
                sp: old(self).sp.wrapping_sub(1).wrapping_sub(1),
                ..*old(self)
            }),
            final(self).wf(),
    {
        self.push((value >> 8) as u8);
        self.push((value & 0xff) as u8);
    }

    /// Pops a byte: SP moves up, then the byte at $0100+SP is read.
    pub fn pop(&mut self) -> (r: u8)
        requires
            old(self).wf(),
        ensures
            r == old(self).memory@[0x100 + old(self).sp.wrapping_add(1)],
            *final(self) == (CPU { sp: old(self).sp.wrapping_add(1), ..*old(self) }),
            final(self).wf(),
    {
        self.sp = self.sp.wrapping_add(1);
        let address = 0x100 + self.sp as usize;
        proof {
            self.lemma_read_ram(address as int);
        }
        self.read(address)
    }

    /// Pops a word, low byte first.
    pub fn pop_u16(&mut self) -> (r: u16)
        requires
            old(self).wf(),
        ensures
            r == ((old(self).memory@[0x100 + old(self).sp.wrapping_add(1).wrapping_add(1)] as u16)
                << 8) | (old(self).memory@[0x100 + old(self).sp.wrapping_add(1)] as u16),
            *final(self) == (CPU { sp: old(self).sp.wrapping_add(1).wrapping_add(1), ..*old(self) }),
            final(self).wf(),
    {
        let low = self.pop() as u16;
        let high = self.pop() as u16;
        (high << 8) | low
    }

    /// Reads a little-endian word; the high byte comes from `address + 1`
    /// (wrapping at 16 bits) and is read first.
    pub fn read_u16(&mut self, address: usize) -> (r: u16)
        requires
            old(self).wf(),
            address <= 0xffff,
        ensures
            ({
                let (high, s1) = old(self).read_result((address as int + 1) % 0x10000);
                let (low, s2) = s1.read_result(address as int);
                r == ((high as u16) << 8) | (low as u16) && *final(self) == s2
            }),
            final(self).wf(),
    {
        let high = self.read((address + 1) % 0x10000);
        let low = self.read(address);
        ((high as u16) << 8) | (low as u16)
    }

    /// Reads an interrupt or reset vector from the cartridge.
    fn read_vector(&mut self, address: usize) -> (r: u16)
        requires
            old(self).wf(),
            0xfffa <= address <= 0xfffe,
        ensures
            r == old(self).vector(address as int),
            *final(self) == *old(self),
    {
        proof {
            self.lemma_read_cartridge(address as int + 1);
            self.lemma_read_cartridge(address as int);
        }
        self.read_u16(address)
    }

    /// Taken branch: the offset at `info.address` moves PC.
    pub fn branch(&mut self, info: StepInfo)
        requires
            old(self).wf(),
            info.address <= 0xffff,
        ensures
            *final(self) == old(self).after_branch(info.address as int),
            final(self).wf(),
    {
        let offset = self.read(info.address);
        let old_pc = self.pc;
        if offset < 0x80 {
            self.pc = self.pc.wrapping_add(offset as u16);
        } else {
            self.pc = self.pc.wrapping_sub((0x100 - offset as u16));
        }
        let extra: u64 = if page_crossed(old_pc as usize, self.pc as usize) {
            3
        } else {
            1
        };
        self.cycles = self.cycles.wrapping_add(extra);
    }

    /// `after` is the state once an interrupt through `vector` is entered:
    /// PC (high byte first) and `flags` pushed, I set, PC loaded from the
    /// vector, 7 cycles spent.
    pub open spec fn interrupt_entered(&self, vector: int, flags: u8, after: &CPU) -> bool {
        &&& after.memory@ == stack_push(
            stack_push(
                stack_push(self.memory@, self.sp, (self.pc >> 8) as u8),
                self.sp.wrapping_sub(1),
                (self.pc & 0xff) as u8,
            ),
            self.sp.wrapping_sub(1).wrapping_sub(1),
            flags,
        )
        &&& *after == CPU {
            memory: after.memory,
            sp: self.sp.wrapping_sub(1).wrapping_sub(1).wrapping_sub(1),
            p: Status { interrupt: true, ..self.p },
            pc: self.vector(vector),
            cycles: self.cycles.wrapping_add(7),
            ..*self
        }
    }

    /// `after` is the state once a pending PPU NMI, if any, is taken.
    pub open spec fn nmi_taken(&self, after: &CPU) -> bool {
        if self.ppu.nmi.trigger_nmi {
            let cleared = CPU {
                ppu: PPU { nmi: Nmi { trigger_nmi: false, ..self.ppu.nmi }, ..self.ppu },
                ..*self
            };
            cleared.interrupt_entered(0xfffa, status_byte(self.p) | 0x30, after)
        } else {
            *after == *self
        }
    }

    /// `after` is the state once the interrupt slot, if set, is served and cleared.
    pub open spec fn slot_taken(&self, after: &CPU) -> bool {
        let cleared = CPU { interrupt: None, ..*self };
        match self.interrupt {
            Some(Interrupt::NMI) => cleared.interrupt_entered(0xfffa, status_byte(self.p) | 0x30, after),
            Some(Interrupt::IRQ) => cleared.interrupt_entered(
                0xfffe,
                status_byte(self.p) & !0x30u8,
                after,
            ),
            None => *after == *self,
        }
    }

    /// Enters an interrupt: pushes PC and the flags (bits 4-5 as given), sets
    /// I, loads PC from the vector and spends 7 cycles.
    fn interrupt_to(&mut self, vector: usize, flags: u8)
        requires
            old(self).wf(),
            0xfffa <= vector <= 0xfffe,
        ensures
            final(self).memory@ == stack_push(
                stack_push(
                    stack_push(old(self).memory@, old(self).sp, (old(self).pc >> 8) as u8),
                    old(self).sp.wrapping_sub(1),
                    (old(self).pc & 0xff) as u8,
                ),
                old(self).sp.wrapping_sub(1).wrapping_sub(1),
                flags,
            ),
            *final(self) == (CPU {
                memory: final(self).memory,
                sp: old(self).sp.wrapping_sub(1).wrapping_sub(1).wrapping_sub(1),
                p: Status { interrupt: true, ..old(self).p },
                pc: old(self).vector(vector as int),
                cycles: old(self).cycles.wrapping_add(7),
                ..*old(self)
            }),
            final(self).wf(),
    {
        self.push_u16(self.pc);
        self.push(flags);
        self.p.interrupt = true;
        self.pc = self.read_vector(vector);
        self.cycles = self.cycles.wrapping_add(7);
    }

    /// Non-maskable interrupt through $FFFA; the flags go out with bits 4-5 set.
    pub fn nmi(&mut self)
        requires
            old(self).wf(),
        ensures
            final(self).memory@ == stack_push(
                stack_push(
                    stack_push(old(self).memory@, old(self).sp, (old(self).pc >> 8) as u8),
                    old(self).sp.wrapping_sub(1),
                    (old(self).pc & 0xff) as u8,
                ),
                old(self).sp.wrapping_sub(1).wrapping_sub(1),
                status_byte(old(self).p) | 0x30,
            ),
            *final(self) == (CPU {
                memory: final(self).memory,
                sp: old(self).sp.wrapping_sub(1).wrapping_sub(1).wrapping_sub(1),
                p: Status { interrupt: true, ..old(self).p },
                pc: old(self).vector(0xfffa),
                cycles: old(self).cycles.wrapping_add(7),
                ..*old(self)
            }),
            old(self).interrupt_entered(0xfffa, status_byte(old(self).p) | 0x30, final(self)),
            old(self).cycles <= u64::MAX - 7 ==> final(self).cycles == old(self).cycles + 7,
            final(self).wf(),
    {
        let flags = self.p.to_u8() | 0x30;
        self.interrupt_to(0xfffa, flags);
    }

    /// Maskable interrupt through $FFFE; the flags go out with bits 4-5 clear.
    pub fn irq(&mut self)
        requires
            old(self).wf(),
        ensures
            final(self).memory@ == stack_push(
                stack_push(
                    stack_push(old(self).memory@, old(self).sp, (old(self).pc >> 8) as u8),
                    old(self).sp.wrapping_sub(1),
                    (old(self).pc & 0xff) as u8,
                ),
                old(self).sp.wrapping_sub(1).wrapping_sub(1),
                status_byte(old(self).p) & !0x30u8,
            ),
            *final(self) == (CPU {
                memory: final(self).memory,
                sp: old(self).sp.wrapping_sub(1).wrapping_sub(1).wrapping_sub(1),
                p: Status { interrupt: true, ..old(self).p },
                pc: old(self).vector(0xfffe),
                cycles: old(self).cycles.wrapping_add(7),
                ..*old(self)
            }),
            old(self).interrupt_entered(0xfffe, status_byte(old(self).p) & !0x30u8, final(self)),
            old(self).cycles <= u64::MAX - 7 ==> final(self).cycles == old(self).cycles + 7,
            final(self).wf(),
    {
        let flags = self.p.to_u8() & !0x30u8;
        self.interrupt_to(0xfffe, flags);
    }

    /// Builds the decode table.
    fn opcode_table() -> (r: OpcodeTable)
        ensures
            r.handlers@ == opcode_handlers(),
            r.modes@ == opcode_modes(),
            r.cycles@ == opcode_cycles(),
            r.page_cycles@ == opcode_page_cycles(),
            r.sizes@ == opcode_sizes(),
            r.handlers.len() == 256,
            r.modes.len() == 256,
            r.cycles.len() == 256,
            r.page_cycles.len() == 256,
            r.sizes.len() == 256,
    {
        let handlers: Vec<Instr> = vec![
            Instr::BRK, Instr::ORA, Instr::STP, Instr::SLO, Instr::NOP, Instr::ORA, Instr::ASL, Instr::SLO,
            Instr::PHP, Instr::ORA, Instr::ASL, Instr::ANC, Instr::NOP, Instr::ORA, Instr::ASL, Instr::SLO,
            Instr::BPL, Instr::ORA, Instr::STP, Instr::SLO, Instr::NOP, Instr::ORA, Instr::ASL, Instr::SLO,
            Instr::CLC, Instr::ORA, Instr::NOP, Instr::SLO, Instr::NOP, Instr::ORA, Instr::ASL, Instr::SLO,
            Instr::JSR, Instr::AND, Instr::STP, Instr::RLA, Instr::BIT, Instr::AND, Instr::ROL, Instr::RLA,
            Instr::PLP, Instr::AND, Instr::ROL, Instr::ANC, Instr::BIT, Instr::AND, Instr::ROL, Instr::RLA,
            Instr::BMI, Instr::AND, Instr::STP, Instr::RLA, Instr::NOP, Instr::AND, Instr::ROL, Instr::RLA,
            Instr::SEC, Instr::AND, Instr::NOP, Instr::RLA, Instr::NOP, Instr::AND, Instr::ROL, Instr::RLA,
            Instr::RTI, Instr::EOR, Instr::STP, Instr::SRE, Instr::NOP, Instr::EOR, Instr::LSR, Instr::SRE,
            Instr::PHA, Instr::EOR, Instr::LSR, Instr::ALR, Instr::JMP, Instr::EOR, Instr::LSR, Instr::SRE,
            Instr::BVC, Instr::EOR, Instr::STP, Instr::SRE, Instr::NOP, Instr::EOR, Instr::LSR, Instr::SRE,
            Instr::CLI, Instr::EOR, Instr::NOP, Instr::SRE, Instr::NOP, Instr::EOR, Instr::LSR, Instr::SRE,
            Instr::RTS, Instr::ADC, Instr::STP, Instr::RRA, Instr::NOP, Instr::ADC, Instr::ROR, Instr::RRA,
            Instr::PLA, Instr::ADC, Instr::ROR, Instr::ARR, Instr::JMP, Instr::ADC, Instr::ROR, Instr::RRA,
            Instr::BVS, Instr::ADC, Instr::STP, Instr::RRA, Instr::NOP, Instr::ADC, Instr::ROR, Instr::RRA,
            Instr::SEI, Instr::ADC, Instr::NOP, Instr::RRA, Instr::NOP, Instr::ADC, Instr::ROR, Instr::RRA,
            Instr::NOP, Instr::STA, Instr::NOP, Instr::SAX, Instr::STY, Instr::STA, Instr::STX, Instr::SAX,
            Instr::DEY, Instr::NOP, Instr::TXA, Instr::XAA, Instr::STY, Instr::STA, Instr::STX, Instr::SAX,
            Instr::BCC, Instr::STA, Instr::STP, Instr::AHX, Instr::STY, Instr::STA, Instr::STX, Instr::SAX,
            Instr::TYA, Instr::STA, Instr::TXS, Instr::TAS, Instr::SHY, Instr::STA, Instr::SHX, Instr::AHX,
            Instr::LDY, Instr::LDA, Instr::LDX, Instr::LAX, Instr::LDY, Instr::LDA, Instr::LDX, Instr::LAX,
            Instr::TAY, Instr::LDA, Instr::TAX, Instr::LAX, Instr::LDY, Instr::LDA, Instr::LDX, Instr::LAX,
            Instr::BCS, Instr::LDA, Instr::STP, Instr::LAX, Instr::LDY, Instr::LDA, Instr::LDX, Instr::LAX,
            Instr::CLV, Instr::LDA, Instr::TSX, Instr::LAS, Instr::LDY, Instr::LDA, Instr::LDX, Instr::LAX,
            Instr::CPY, Instr::CMP, Instr::NOP, Instr::DCP, Instr::CPY, Instr::CMP, Instr::DEC, Instr::DCP,
            Instr::INY, Instr::CMP, Instr::DEX, Instr::AXS, Instr::CPY, Instr::CMP, Instr::DEC, Instr::DCP,
            Instr::BNE, Instr::CMP, Instr::STP, Instr::DCP, Instr::NOP, Instr::CMP, Instr::DEC, Instr::DCP,
            Instr::CLD, Instr::CMP, Instr::NOP, Instr::DCP, Instr::NOP, Instr::CMP, Instr::DEC, Instr::DCP,
            Instr::CPX, Instr::SBC, Instr::NOP, Instr::ISC, Instr::CPX, Instr::SBC, Instr::INC, Instr::ISC,
            Instr::INX, Instr::SBC, Instr::NOP, Instr::SBC, Instr::CPX, Instr::SBC, Instr::INC, Instr::ISC,
            Instr::BEQ, Instr::SBC, Instr::STP, Instr::ISC, Instr::NOP, Instr::SBC, Instr::INC, Instr::ISC,
            Instr::SED, Instr::SBC, Instr::NOP, Instr::ISC, Instr::NOP, Instr::SBC, Instr::INC, Instr::ISC,
        ];
        let modes: Vec<Mode> = vec![
            Mode::IMP, Mode::IDX, Mode::IMP, Mode::IDX, Mode::ZPG, Mode::ZPG, Mode::ZPG, Mode::ZPG,
            Mode::IMP, Mode::IMM, Mode::ACC, Mode::IMM, Mode::ABS, Mode::ABS, Mode::ABS, Mode::ABS,
            Mode::REL, Mode::INX, Mode::IMP, Mode::INX, Mode::ZPX, Mode::ZPX, Mode::ZPX, Mode::ZPX,
            Mode::IMP, Mode::ABY, Mode::IMP, Mode::ABY, Mode::ABX, Mode::ABX, Mode::ABX, Mode::ABX,
            Mode::ABS, Mode::IDX, Mode::IMP, Mode::IDX, Mode::ZPG, Mode::ZPG, Mode::ZPG, Mode::ZPG,
            Mode::IMP, Mode::IMM, Mode::ACC, Mode::IMM, Mode::ABS, Mode::ABS, Mode::ABS, Mode::ABS,
            Mode::REL, Mode::INX, Mode::IMP, Mode::INX, Mode::ZPX, Mode::ZPX, Mode::ZPX, Mode::ZPX,
            Mode::IMP, Mode::ABY, Mode::IMP, Mode::ABY, Mode::ABX, Mode::ABX, Mode::ABX, Mode::ABX,
            Mode::IMP, Mode::IDX, Mode::IMP, Mode::IDX, Mode::ZPG, Mode::ZPG, Mode::ZPG, Mode::ZPG,
            Mode::IMP, Mode::IMM, Mode::ACC, Mode::IMM, Mode::ABS, Mode::ABS, Mode::ABS, Mode::ABS,
            Mode::REL, Mode::INX, Mode::IMP, Mode::INX, Mode::ZPX, Mode::ZPX, Mode::ZPX, Mode::ZPX,
            Mode::IMP, Mode::ABY, Mode::IMP, Mode::ABY, Mode::ABX, Mode::ABX, Mode::ABX, Mode::ABX,
            Mode::IMP, Mode::IDX, Mode::IMP, Mode::IDX, Mode::ZPG, Mode::ZPG, Mode::ZPG, Mode::ZPG,
            Mode::IMP, Mode::IMM, Mode::ACC, Mode::IMM, Mode::IND, Mode::ABS, Mode::ABS, Mode::ABS,
            Mode::REL, Mode::INX, Mode::IMP, Mode::INX, Mode::ZPX, Mode::ZPX, Mode::ZPX, Mode::ZPX,
            Mode::IMP, Mode::ABY, Mode::IMP, Mode::ABY, Mode::ABX, Mode::ABX, Mode::ABX, Mode::ABX,
            Mode::IMM, Mode::IDX, Mode::IMM, Mode::IDX, Mode::ZPG, Mode::ZPG, Mode::ZPG, Mode::ZPG,
            Mode::IMP, Mode::IMM, Mode::IMP, Mode::IMM, Mode::ABS, Mode::ABS, Mode::ABS, Mode::ABS,
            Mode::REL, Mode::INX, Mode::IMP, Mode::INX, Mode::ZPX, Mode::ZPX, Mode::ZPY, Mode::ZPY,
            Mode::IMP, Mode::ABY, Mode::IMP, Mode::ABY, Mode::ABX, Mode::ABX, Mode::ABY, Mode::ABY,
            Mode::IMM, Mode::IDX, Mode::IMM, Mode::IDX, Mode::ZPG, Mode::ZPG, Mode::ZPG, Mode::ZPG,
            Mode::IMP, Mode::IMM, Mode::IMP, Mode::IMM, Mode::ABS, Mode::ABS, Mode::ABS, Mode::ABS,
            Mode::REL, Mode::INX, Mode::IMP, Mode::INX, Mode::ZPX, Mode::ZPX, Mode::ZPY, Mode::ZPY,
            Mode::IMP, Mode::ABY, Mode::IMP, Mode::ABY, Mode::ABX, Mode::ABX, Mode::ABY, Mode::ABY,
            Mode::IMM, Mode::IDX, Mode::IMM, Mode::IDX, Mode::ZPG, Mode::ZPG, Mode::ZPG, Mode::ZPG,
            Mode::IMP, Mode::IMM, Mode::IMP, Mode::IMM, Mode::ABS, Mode::ABS, Mode::ABS, Mode::ABS,
            Mode::REL, Mode::INX, Mode::IMP, Mode::INX, Mode::ZPX, Mode::ZPX, Mode::ZPX, Mode::ZPX,
            Mode::IMP, Mode::ABY, Mode::IMP, Mode::ABY, Mode::ABX, Mode::ABX, Mode::ABX, Mode::ABX,
            Mode::IMM, Mode::IDX, Mode::IMM, Mode::IDX, Mode::ZPG, Mode::ZPG, Mode::ZPG, Mode::ZPG,
            Mode::IMP, Mode::IMM, Mode::IMP, Mode::IMM, Mode::ABS, Mode::ABS, Mode::ABS, Mode::ABS,
            Mode::REL, Mode::INX, Mode::IMP, Mode::INX, Mode::ZPX, Mode::ZPX, Mode::ZPX, Mode::ZPX,
            Mode::IMP, Mode::ABY, Mode::IMP, Mode::ABY, Mode::ABX, Mode::ABX, Mode::ABX, Mode::ABX,
        ];
        let cycles: Vec<u8> = vec![
            7, 6, 2, 8, 3, 3, 5, 5, 3, 2, 2, 2, 4, 4, 6, 6,
            2, 5, 2, 8, 4, 4, 6, 6, 2, 4, 2, 7, 4, 4, 7, 7,
            6, 6, 2, 8, 3, 3, 5, 5, 4, 2, 2, 2, 4, 4, 6, 6,
            2, 5, 2, 8, 4, 4, 6, 6, 2, 4, 2, 7, 4, 4, 7, 7,
            6, 6, 2, 8, 3, 3, 5, 5, 3, 2, 2, 2, 3, 4, 6, 6,
            2, 5, 2, 8, 4, 4, 6, 6, 2, 4, 2, 7, 4, 4, 7, 7,
            6, 6, 2, 8, 3, 3, 5, 5, 4, 2, 2, 2, 5, 4, 6, 6,
            2, 5, 2, 8, 4, 4, 6, 6, 2, 4, 2, 7, 4, 4, 7, 7,
            2, 6, 2, 6, 3, 3, 3, 3, 2, 2, 2, 2, 4, 4, 4, 4,
            2, 6, 2, 6, 4, 4, 4, 4, 2, 5, 2, 5, 5, 5, 5, 5,
            2, 6, 2, 6, 3, 3, 3, 3, 2, 2, 2, 2, 4, 4, 4, 4,
            2, 5, 2, 5, 4, 4, 4, 4, 2, 4, 2, 4, 4, 4, 4, 4,
            2, 6, 2, 8, 3, 3, 5, 5, 2, 2, 2, 2, 4, 4, 6, 6,
            2, 5, 2, 8, 4, 4, 6, 6, 2, 4, 2, 7, 4, 4, 7, 7,
            2, 6, 2, 8, 3, 3, 5, 5, 2, 2, 2, 2, 4, 4, 6, 6,
            2, 5, 2, 8, 4, 4, 6, 6, 2, 4, 2, 7, 4, 4, 7, 7,
        ];
        let page_cycles: Vec<u8> = vec![
            0, 0, 0, 0, 0, 0, 0, 0, 0, 0, 0, 0, 0, 0, 0, 0,
            1, 1, 0, 0, 0, 0, 0, 0, 0, 1, 0, 0, 1, 1, 0, 0,
            0, 0, 0, 0, 0, 0, 0, 0, 0, 0, 0, 0, 0, 0, 0, 0,
            1, 1, 0, 0, 0, 0, 0, 0, 0, 1, 0, 0, 1, 1, 0, 0,
            0, 0, 0, 0, 0, 0, 0, 0, 0, 0, 0, 0, 0, 0, 0, 0,
            1, 1, 0, 0, 0, 0, 0, 0, 0, 1, 0, 0, 1, 1, 0, 0,
            0, 0, 0, 0, 0, 0, 0, 0, 0, 0, 0, 0, 0, 0, 0, 0,
            1, 1, 0, 0, 0, 0, 0, 0, 0, 1, 0, 0, 1, 1, 0, 0,
            0, 0, 0, 0, 0, 0, 0, 0, 0, 0, 0, 0, 0, 0, 0, 0,
            1, 0, 0, 0, 0, 0, 0, 0, 0, 0, 0, 0, 0, 0, 0, 0,
            0, 0, 0, 0, 0, 0, 0, 0, 0, 0, 0, 0, 0, 0, 0, 0,
            1, 1, 0, 1, 0, 0, 0, 0, 0, 1, 0, 1, 1, 1, 1, 1,
            0, 0, 0, 0, 0, 0, 0, 0, 0, 0, 0, 0, 0, 0, 0, 0,
            1, 1, 0, 0, 0, 0, 0, 0, 0, 1, 0, 0, 1, 1, 0, 0,
            0, 0, 0, 0, 0, 0, 0, 0, 0, 0, 0, 0, 0, 0, 0, 0,
            1, 1, 0, 0, 0, 0, 0, 0, 0, 1, 0, 0, 1, 1, 0, 0,
        ];
        let sizes: Vec<u8> = vec![
            2, 2, 0, 0, 2, 2, 2, 0, 1, 2, 1, 0, 3, 3, 3, 0,
            2, 2, 0, 0, 2, 2, 2, 0, 1, 3, 1, 0, 3, 3, 3, 0,
            3, 2, 0, 0, 2, 2, 2, 0, 1, 2, 1, 0, 3, 3, 3, 0,
            2, 2, 0, 0, 2, 2, 2, 0, 1, 3, 1, 0, 3, 3, 3, 0,
            1, 2, 0, 0, 2, 2, 2, 0, 1, 2, 1, 0, 3, 3, 3, 0,
            2, 2, 0, 0, 2, 2, 2, 0, 1, 3, 1, 0, 3, 3, 3, 0,
            1, 2, 0, 0, 2, 2, 2, 0, 1, 2, 1, 0, 3, 3, 3, 0,
            2, 2, 0, 0, 2, 2, 2, 0, 1, 3, 1, 0, 3, 3, 3, 0,
            2, 2, 0, 0, 2, 2, 2, 0, 1, 0, 1, 0, 3, 3, 3, 0,
            2, 2, 0, 0, 2, 2, 2, 0, 1, 3, 1, 0, 0, 3, 0, 0,
            2, 2, 2, 0, 2, 2, 2, 0, 1, 2, 1, 0, 3, 3, 3, 0,
            2, 2, 0, 0, 2, 2, 2, 0, 1, 3, 1, 0, 3, 3, 3, 0,
            2, 2, 0, 0, 2, 2, 2, 0, 1, 2, 1, 0, 3, 3, 3, 0,
            2, 2, 0, 0, 2, 2, 2, 0, 1, 3, 1, 0, 3, 3, 3, 0,
            2, 2, 0, 0, 2, 2, 2, 0, 1, 2, 1, 0, 3, 3, 3, 0,
            2, 2, 0, 0, 2, 2, 2, 0, 1, 3, 1, 0, 3, 3, 3, 0,
        ];
        assert(handlers@ =~= opcode_handlers());
        assert(modes@ =~= opcode_modes());
        assert(cycles@ =~= opcode_cycles());
        assert(page_cycles@ =~= opcode_page_cycles());
        assert(sizes@ =~= opcode_sizes());
        OpcodeTable { handlers, modes, cycles, page_cycles, sizes }
    }

    /// A CPU wired to `mapper` and `ppu`, reset: PC from the reset vector,
    /// SP = $FD, P = $24.
    pub fn new(mapper: AnyMapper, ppu: PPU) -> (r: CPU)
        requires
            mapper.wf(),
            ppu.wf(),
        ensures
            r.wf(),
            r.pc == mapper.spec_read(0xfffc) as u16 | ((mapper.spec_read(0xfffd) as u16) << 8),
            r.sp == 0xfd,
            r.p == status_of(0x24),
            r.a == 0 && r.x == 0 && r.y == 0,
            r.cycles == 0 && r.dma_delay == 0 && r.interrupt is None,
            r.mapper == mapper,
            r.ppu == ppu,
            r.table.handlers@ == opcode_handlers(),
            r.table.modes@ == opcode_modes(),
            r.table.cycles@ == opcode_cycles(),
            r.table.page_cycles@ == opcode_page_cycles(),
            r.table.sizes@ == opcode_sizes(),
            forall|i: int| 0 <= i < 0x800 ==> r.memory@[i] == 0,
    {
        let mut cpu = CPU {
            a: 0,
            x: 0,
            y: 0,
            pc: 0,
            sp: 0,
            p: Status::from_byte(0x24),
            interrupt: None,
            memory: vec![0u8; 0x800],
            dma_delay: 0,
            cycles: 0,
            mapper,
            ppu,
            controllers: (Controller::new(), Controller::new()),
            table: CPU::opcode_table(),
        };
        cpu.reset();
        proof {
            let lo = mapper.spec_read(0xfffc);
            let hi = mapper.spec_read(0xfffd);
            assert(((hi as u16) << 8) | (lo as u16) == (lo as u16) | ((hi as u16) << 8)) by (bit_vector);
        }
        cpu
    }

    /// Reset: PC from $FFFC, SP = $FD, P = $24.
    pub fn reset(&mut self)
        requires
            old(self).wf(),
        ensures
            *final(self) == (CPU {
                pc: old(self).vector(0xfffc),
                sp: 0xfd,
                p: status_of(0x24),
                ..*old(self)
            }),
    {
        self.pc = self.read_vector(0xfffc);
        self.sp = 0xfd;
        self.p = Status::from_byte(0x24);
    }

    /// The little-endian word at `address` as two reads, high byte first.
    pub open spec fn word_at(&self, address: int) -> (u16, CPU) {
        let (high, s1) = self.read_result((address + 1) % 0x10000);
        let (low, s2) = s1.read_result(address);
        (((high as u16) << 8) | (low as u16), s2)
    }

    /// Operand address of the instruction at PC for `mode`, whether indexing
    /// crossed a page, and the state after the reads this took.
    #[verifier::opaque]
    pub open spec fn resolved(&self, mode: Mode) -> ((usize, bool), CPU) {
        let operand = (self.pc + 1) % 0x10000;
        match mode {
            Mode::ABS => {
                let (w, s) = self.word_at(operand);
                ((w as usize, false), s)
            },
            Mode::ABX | Mode::ABY => {
                let (w, s) = self.word_at(operand);
                let index = if mode == Mode::ABX {
                    s.x
                } else {
                    s.y
                };
                let a = w.wrapping_add(index as u16);
                ((a as usize, crosses_page(w as int, a as int)), s)
            },
            Mode::ACC | Mode::IMP => ((0, false), *self),
            Mode::IMM | Mode::REL => ((operand as usize, false), *self),
            Mode::IDX => {
                let (pointer, s1) = self.read_result(operand);
                let zp_low = pointer.wrapping_add(s1.x);
                let (low, s2) = s1.read_result(zp_low as int);
                let (high, s3) = s2.read_result(zp_low.wrapping_add(1) as int);
                (((((high as u16) << 8) | (low as u16)) as usize, false), s3)
            },
            Mode::IND => {
                let (pointer, s1) = self.word_at(operand);
                let (low, s2) = s1.read_result(pointer as int);
                let next = ((pointer as usize) + 1) as usize;
                let high_address = ((pointer as usize) & 0xff00) | (next & 0xff);
                let (high, s3) = s2.read_result(high_address as int);
                (((((high as u16) << 8) | (low as u16)) as usize, false), s3)
            },
            Mode::INX => {
                let (pointer, s1) = self.read_result(operand);
                let (low, s2) = s1.read_result(pointer as int);
                let (high, s3) = s2.read_result(pointer.wrapping_add(1) as int);
                let base = ((high as u16) << 8) | (low as u16);
                let a = base.wrapping_add(s3.y as u16);
                ((a as usize, crosses_page(base as int, a as int)), s3)
            },
            Mode::ZPG => {
                let (b, s) = self.read_result(operand);
                ((b as usize, false), s)
            },
            Mode::ZPX => {
                let (b, s) = self.read_result(operand);
                ((b.wrapping_add(s.x) as usize, false), s)
            },
            Mode::ZPY => {
                let (b, s) = self.read_result(operand);
                ((b.wrapping_add(s.y) as usize, false), s)
            },
        }
    }

    /// State after fetching the opcode at PC, resolving its operand,
    /// advancing PC and counting its cycles, and running it.
    pub open spec fn decoded_and_executed(&self, after: &CPU) -> bool {
        let (opcode, t) = self.read_result(self.pc as int);
        let mode = t.table.modes@[opcode as int];
        let ((address, crossed), u) = t.resolved(mode);
        let cycles = u.cycles.wrapping_add(u.table.cycles@[opcode as int] as u64);
        let v = CPU {
            pc: u.pc.wrapping_add(u.table.sizes@[opcode as int] as u16),
            cycles: if crossed {
                cycles.wrapping_add(u.table.page_cycles@[opcode as int] as u64)
            } else {
                cycles
            },
            ..u
        };
        v.executed(u.table.handlers@[opcode as int], StepInfo { address, mode }, after)
    }

    /// Resolves the operand address of the instruction at PC for `mode`, and
    /// whether indexing crossed a page.
    fn resolve(&mut self, mode: Mode) -> (r: (usize, bool))
        requires
            old(self).wf(),
        ensures
            final(self).wf(),
            r.0 <= 0xffff,
            (r, *final(self)) == old(self).resolved(mode),
    {
        reveal(CPU::resolved);
        let operand = (self.pc as usize + 1) % 0x10000;
        match mode {
            Mode::ABS => (self.read_u16(operand) as usize, false),
            Mode::ABX | Mode::ABY => {
                let base = self.read_u16(operand);
                let index: u16 = if mode == Mode::ABX {
                    self.x as u16
                } else {
                    self.y as u16
                };
                let address = base.wrapping_add(index);
                (address as usize, page_crossed(base as usize, address as usize))
            },
            Mode::ACC | Mode::IMP => (0, false),
            Mode::IMM | Mode::REL => (operand, false),
            Mode::IDX => {
                let pointer = self.read(operand);
                let zp_low = pointer.wrapping_add(self.x);
                let zp_high = zp_low.wrapping_add(1);
                let low = self.read(zp_low as usize) as u16;
                let high = self.read(zp_high as usize) as u16;
                (((high << 8) | low) as usize, false)
            },
            Mode::IND => {
                let pointer = self.read_u16(operand) as usize;
                let low = self.read(pointer) as u16;
                // the high byte comes from the same page: the 6502 does not
                // carry into the pointer's high byte
                let next = pointer + 1;
                let high_address = (pointer & 0xff00) | (next & 0xff);
                assert((pointer & 0xff00) | (next & 0xff) <= 0xffff) by (bit_vector)
                    requires
                        pointer <= 0xffff,
                ;
                let high = self.read(high_address) as u16;
                (((high << 8) | low) as usize, false)
            },
            Mode::INX => {
                let pointer = self.read(operand);
                let low = self.read(pointer as usize) as u16;
                let high = self.read(pointer.wrapping_add(1) as usize) as u16;
                let base = (high << 8) | low;
                let address = base.wrapping_add(self.y as u16);
                (address as usize, page_crossed(base as usize, address as usize))
            },
            Mode::ZPG => (self.read(operand) as usize, false),
            Mode::ZPX => (self.read(operand).wrapping_add(self.x) as usize, false),
            Mode::ZPY => (self.read(operand).wrapping_add(self.y) as usize, false),
        }
    }

    /// Runs the handler of an instruction.
    fn execute(&mut self, instr: Instr, info: StepInfo)
        requires
            old(self).wf(),
            info.address <= 0xffff,
        ensures
            final(self).wf(),
            old(self).executed(instr, info, final(self)),
    {
        reveal(CPU::executed);
        match instr {
            Instr::ADC => self.adc(info),
            Instr::AND => self.and(info),
            Instr::ASL => self.asl(info),
            Instr::BCC => self.bcc(info),
            Instr::BCS => self.bcs(info),
            Instr::BEQ => self.beq(info),
            Instr::BIT => self.bit(info),
            Instr::BMI => self.bmi(info),
            Instr::BNE => self.bne(info),
            Instr::BPL => self.bpl(info),
            Instr::BRK => self.brk(info),
            Instr::BVC => self.bvc(info),
            Instr::BVS => self.bvs(info),
            Instr::CLC => self.clc(info),
            Instr::CLD => self.cld(info),
            Instr::CLI => self.cli(info),
            Instr::CLV => self.clv(info),
            Instr::CMP => self.cmp(info),
            Instr::CPX => self.cpx(info),
            Instr::CPY => self.cpy(info),
            Instr::DEC => self.dec(info),
            Instr::DEX => self.dex(info),
            Instr::DEY => self.dey(info),
            Instr::EOR => self.eor(info),
            Instr::INC => self.inc(info),
            Instr::INX => self.inx(info),
            Instr::INY => self.iny(info),
            Instr::JMP => self.jmp(info),
            Instr::JSR => self.jsr(info),
            Instr::LDA => self.lda(info),
            Instr::LDX => self.ldx(info),
            Instr::LDY => self.ldy(info),
            Instr::LSR => self.lsr(info),
            Instr::NOP => self.nop(info),
            Instr::ORA => self.ora(info),
            Instr::PHA => self.pha(info),
            Instr::PHP => self.php(info),
            Instr::PLA => self.pla(info),
            Instr::PLP => self.plp(info),
            Instr::ROL => self.rol(info),
            Instr::ROR => self.ror(info),
            Instr::RTI => self.rti(info),
            Instr::RTS => self.rts(info),
            Instr::SBC => self.sbc(info),
            Instr::SEC => self.sec(info),
            Instr::SED => self.sed(info),
            Instr::SEI => self.sei(info),
            Instr::STA => self.sta(info),
            Instr::STX => self.stx(info),
            Instr::STY => self.sty(info),
            Instr::TAX => self.tax(info),
            Instr::TAY => self.tay(info),
            Instr::TSX => self.tsx(info),
            Instr::TXA => self.txa(info),
            Instr::TXS => self.txs(info),
            Instr::TYA => self.tya(info),
            Instr::STP => self.stp(info),
            Instr::AHX => self.ahx(info),
            Instr::ALR => self.alr(info),
            Instr::ANC => self.anc(info),
            Instr::ARR => self.arr(info),
            Instr::AXS => self.axs(info),
            Instr::DCP => self.dcp(info),
            Instr::ISC => self.isc(info),
            Instr::LAS => self.las(info),
            Instr::LAX => self.lax(info),
            Instr::RLA => self.rla(info),
            Instr::RRA => self.rra(info),
            Instr::SAX => self.sax(info),
            Instr::SHX => self.shx(info),
            Instr::SHY => self.shy(info),
            Instr::SLO => self.slo(info),
            Instr::SRE => self.sre(info),
            Instr::TAS => self.tas(info),
            Instr::XAA => self.xaa(info),
        }
    }

    /// Takes a pending PPU NMI, then a pending interrupt from the slot.
    fn service_interrupts(&mut self)
        requires
            old(self).wf(),
        ensures
            final(self).wf(),
            final(self).interrupt is None,
            !final(self).ppu.nmi.trigger_nmi,
            final(self).dma_delay == old(self).dma_delay,
            exists|m: CPU| old(self).nmi_taken(&m) && #[trigger] m.slot_taken(final(self)),
    {
        let ghost start = *self;
        if self.ppu.nmi.trigger_nmi {
            self.ppu.nmi.trigger_nmi = false;
            self.nmi();
        }
        let ghost m = *self;
        let pending = self.interrupt;
        self.interrupt = None;
        match pending {
            Some(Interrupt::NMI) => self.nmi(),
            Some(Interrupt::IRQ) => self.irq(),
            None => {},
        }
        assert(start.nmi_taken(&m) && m.slot_taken(self));
    }

    /// Runs one instruction, or one stall cycle of an OAM DMA, and returns
    /// the CPU cycles it took. A pending PPU NMI is taken first.
    pub fn step(&mut self) -> (r: u64)
        requires
            old(self).wf(),
        ensures
            final(self).wf(),
            old(self).dma_delay > 0 ==> r == 1 && *final(self) == (CPU {
                dma_delay: (old(self).dma_delay - 1) as usize,
                ..*old(self)
            }),
            old(self).dma_delay == 0 ==> r == final(self).cycles.wrapping_sub(old(self).cycles),
            old(self).dma_delay == 0 && !old(self).ppu.nmi.trigger_nmi && old(self).interrupt is None
                ==> old(self).decoded_and_executed(final(self)),
            old(self).dma_delay == 0 ==> exists|m: CPU, s: CPU|
                #![trigger old(self).nmi_taken(&m), m.slot_taken(&s)]
                {
                    &&& old(self).nmi_taken(&m)
                    &&& m.slot_taken(&s)
                    &&& s.decoded_and_executed(final(self))
                },
    {
        if self.dma_delay > 0 {
            self.dma_delay = self.dma_delay - 1;
            return 1;
        }
        let cycles = self.cycles;
        let ghost start = *self;
        self.service_interrupts();
        let ghost serviced = *self;
        let ghost m = choose|m: CPU| start.nmi_taken(&m) && m.slot_taken(&serviced);
        let opcode = self.read(self.pc as usize) as usize;
        let mode = self.table.modes[opcode];
        let (address, crossed) = self.resolve(mode);
        self.pc = self.pc.wrapping_add(self.table.sizes[opcode] as u16);
        self.cycles = self.cycles.wrapping_add(self.table.cycles[opcode] as u64);
        if crossed {
            self.cycles = self.cycles.wrapping_add(self.table.page_cycles[opcode] as u64);
        }
        let instr = self.table.handlers[opcode];
        self.execute(instr, StepInfo { address, mode });
        assert(serviced.decoded_and_executed(self));
        assert(start.nmi_taken(&m) && m.slot_taken(&serviced));
        self.cycles.wrapping_sub(cycles)
    }
}

/// Internal RAM repeats every 2 KiB across $0000-$1FFF.
pub proof fn lemma_ram_mirrors(cpu: &CPU, address: int, k: int)
    requires
        0 <= address,
        1 <= k <= 3,
        address + 0x800 * k <= 0x1fff,
    ensures
        cpu.read_result(address) == cpu.read_result(address + 0x800 * k),
{
    reveal(CPU::read_result);
    assert((address + 0x800 * k) % 0x800 == address % 0x800) by (nonlinear_arith)
        requires
            0 <= address,
            1 <= k <= 3,
    ;
}

/// A pushed byte is the next one popped, and SP comes back to where it was.
pub proof fn lemma_push_pop(mem: Seq<u8>, sp: u8, value: u8)
    requires
        mem.len() == 0x800,
    ensures
        sp.wrapping_sub(1).wrapping_add(1) == sp,
        stack_push(mem, sp, value)[0x100 + sp.wrapping_sub(1).wrapping_add(1)] == value,
{
}

/// The reads of a DMA from a RAM page have no side effects and return the
/// page's bytes.
proof fn lemma_dma_reads_ram(s: &CPU, page: int, n: nat)
    requires
        0 <= page,
        page + n <= 0x2000,
    ensures
        s.dma_reads(page, n).1 == *s,
        s.dma_reads(page, n).0.len() == n,
        forall|i: int| 0 <= i < n ==> #[trigger] s.dma_reads(page, n).0[i] == s.memory@[(page + i) % 0x800],
    decreases n,
{
    if n > 0 {
        lemma_dma_reads_ram(s, page, (n - 1) as nat);
        s.lemma_read_ram(page + n - 1);
        let prev = s.dma_reads(page, (n - 1) as nat).0;
        assert forall|i: int| 0 <= i < n implies #[trigger] s.dma_reads(page, n).0[i] == s.memory@[(page + i) % 0x800] by {
            if i < n - 1 {
                assert(prev[i] == s.memory@[(page + i) % 0x800]);
            }
        }
    }
}

/// After a $4014 write of a RAM page `value` ($00-$1F), OAM holds the
/// page's 256 bytes and the CPU owes 513 stall cycles more, or 514 when the
/// write came on an odd cycle.
pub proof fn lemma_dma_from_ram(cpu: &CPU, value: u8, after: &CPU)
    requires
        value < 0x20,
        cpu.dma_done(value, after),
        cpu.dma_delay + 514 <= usize::MAX,
    ensures
        forall|i: int| 0 <= i < 256 ==> #[trigger] after.ppu.oam_data@[i] == cpu.memory@[(value * 0x100 + i) % 0x800],
        after.dma_delay == cpu.dma_delay + if cpu.cycles % 2 == 1 { 514int } else { 513int },
        after.cycles == cpu.cycles,
        after.memory == cpu.memory,
        after.a == cpu.a && after.x == cpu.x && after.y == cpu.y,
        after.sp == cpu.sp && after.p == cpu.p && after.pc == cpu.pc,
{
    let s0 = CPU { ppu: PPU { data_buffer: value, ..cpu.ppu }, ..*cpu };
    lemma_dma_reads_ram(&s0, value * 0x100, 256);
}

} // verus!
