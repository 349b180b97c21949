use vstd::prelude::*;

use crate::cpu::status::{status_byte, status_of, with_zn, Status};
use crate::cpu::{stack_push, Instr, Mode, StepInfo, CPU};

verus! {

/// A + M + C as a byte.
pub open spec fn adc_result(a: u8, m: u8, c: bool) -> u8 {
    ((a + m + if c { 1int } else { 0int }) % 256) as u8
}

/// Flags after A + M + C: carry when the sum passes 255, overflow when both
/// operands' sign differs from the result's.
pub open spec fn adc_status(p: Status, a: u8, m: u8) -> Status {
    let r = adc_result(a, m, p.carry);
    Status {
        carry: a + m + (if p.carry { 1int } else { 0int }) > 255,
        overflow: ((m ^ r) & (a ^ r) & 0x80) != 0,
        ..with_zn(p, r)
    }
}

/// Flags after comparing a register with M.
pub open spec fn compared(p: Status, reg: u8, m: u8) -> Status {
    Status { carry: reg >= m, zero: reg == m, negative: (reg.wrapping_sub(m) & 0x80) == 0x80, ..p }
}

pub open spec fn asl_of(v: u8) -> (u8, bool) {
    ((v << 1) as u8, (v >> 7) & 1 != 0)
}

pub open spec fn lsr_of(v: u8) -> (u8, bool) {
    (v >> 1, v & 1 != 0)
}

pub open spec fn rol_of(v: u8, c: bool) -> (u8, bool) {
    (((v << 1) as u8) | (if c { 1u8 } else { 0u8 }), (v >> 7) & 1 != 0)
}

pub open spec fn ror_of(v: u8, c: bool) -> (u8, bool) {
    ((v >> 1) | (if c { 0x80u8 } else { 0u8 }), v & 1 != 0)
}

fn asl_value(v: u8) -> (r: (u8, bool))
    ensures
        r == asl_of(v),
{
    (v << 1, (v >> 7) & 1 != 0)
}

fn lsr_value(v: u8) -> (r: (u8, bool))
    ensures
        r == lsr_of(v),
{
    (v >> 1, v & 1 != 0)
}

fn rol_value(v: u8, c: bool) -> (r: (u8, bool))
    ensures
        r == rol_of(v, c),
{
    ((v << 1) | (if c { 1u8 } else { 0u8 }), (v >> 7) & 1 != 0)
}

fn ror_value(v: u8, c: bool) -> (r: (u8, bool))
    ensures
        r == ror_of(v, c),
{
    ((v >> 1) | (if c { 0x80u8 } else { 0u8 }), v & 1 != 0)
}

impl CPU {
    /// `after` is the state once `instr` has run on operand `info`; each
    /// arm is the contract of the instruction's handler.
    #[verifier::opaque]
    pub open spec fn executed(&self, instr: Instr, info: StepInfo, after: &CPU) -> bool {
        match instr {
            Instr::LDA => {
                &&& ({
                    let (value, s) = self.read_result(info.address as int);
                    *after == CPU { a: value, p: with_zn(s.p, value), ..s }
                })
            },
            Instr::LDX => {
                &&& ({
                    let (value, s) = self.read_result(info.address as int);
                    *after == CPU { x: value, p: with_zn(s.p, value), ..s }
                })
            },
            Instr::LDY => {
                &&& ({
                    let (value, s) = self.read_result(info.address as int);
                    *after == CPU { y: value, p: with_zn(s.p, value), ..s }
                })
            },
            Instr::AND => {
                &&& ({
                    let (value, s) = self.read_result(info.address as int);
                    *after == CPU { a: s.a & value, p: with_zn(s.p, s.a & value), ..s }
                })
            },
            Instr::ORA => {
                &&& ({
                    let (value, s) = self.read_result(info.address as int);
                    *after == CPU { a: s.a | value, p: with_zn(s.p, s.a | value), ..s }
                })
            },
            Instr::EOR => {
                &&& ({
                    let (value, s) = self.read_result(info.address as int);
                    *after == CPU { a: s.a ^ value, p: with_zn(s.p, s.a ^ value), ..s }
                })
            },
            Instr::CMP => {
                &&& ({
                    let (value, s) = self.read_result(info.address as int);
                    *after == CPU { p: compared(s.p, s.a, value), ..s }
                })
            },
            Instr::CPX => {
                &&& ({
                    let (value, s) = self.read_result(info.address as int);
                    *after == CPU { p: compared(s.p, s.x, value), ..s }
                })
            },
            Instr::CPY => {
                &&& ({
                    let (value, s) = self.read_result(info.address as int);
                    *after == CPU { p: compared(s.p, s.y, value), ..s }
                })
            },
            Instr::BIT => {
                &&& ({
                    let (value, s) = self.read_result(info.address as int);
                    *after == CPU {
                        p: Status {
                            overflow: (value >> 6) & 1 != 0,
                            zero: (value & s.a) == 0,
                            negative: (value & 0x80) == 0x80,
                            ..s.p
                        },
                        ..s
                    }
                })
            },
            Instr::ADC => {
                &&& ({
                    let (value, s) = self.read_result(info.address as int);
                    *after == CPU {
                        a: adc_result(s.a, value, s.p.carry),
                        p: adc_status(s.p, s.a, value),
                        ..s
                    }
                })
            },
            Instr::SBC => {
                &&& ({
                    let (value, s) = self.read_result(info.address as int);
                    *after == CPU {
                        a: adc_result(s.a, !value, s.p.carry),
                        p: adc_status(s.p, s.a, !value),
                        ..s
                    }
                })
            },
            Instr::ASL => {
                &&& if info.mode == Mode::ACC {
                    let (r, carry) = asl_of(self.a);
                    *after == CPU { a: r, p: with_zn(Status { carry, ..self.p }, r), ..*self }
                } else {
                    let (value, s) = self.read_result(info.address as int);
                    let (r, carry) = asl_of(value);
                    &&& after.p == with_zn(Status { carry, ..s.p }, r)
                    &&& s.write_done(info.address as int, r, &CPU { p: s.p, ..*after })
                }
            },
            Instr::LSR => {
                &&& if info.mode == Mode::ACC {
                    let (r, carry) = lsr_of(self.a);
                    *after == CPU { a: r, p: with_zn(Status { carry, ..self.p }, r), ..*self }
                } else {
                    let (value, s) = self.read_result(info.address as int);
                    let (r, carry) = lsr_of(value);
                    &&& after.p == with_zn(Status { carry, ..s.p }, r)
                    &&& s.write_done(info.address as int, r, &CPU { p: s.p, ..*after })
                }
            },
            Instr::ROL => {
                &&& if info.mode == Mode::ACC {
                    let (r, carry) = rol_of(self.a, self.p.carry);
                    *after == CPU { a: r, p: with_zn(Status { carry, ..self.p }, r), ..*self }
                } else {
                    let (value, s) = self.read_result(info.address as int);
                    let (r, carry) = rol_of(value, s.p.carry);
                    &&& after.p == with_zn(Status { carry, ..s.p }, r)
                    &&& s.write_done(info.address as int, r, &CPU { p: s.p, ..*after })
                }
            },
            Instr::ROR => {
                &&& if info.mode == Mode::ACC {
                    let (r, carry) = ror_of(self.a, self.p.carry);
                    *after == CPU { a: r, p: with_zn(Status { carry, ..self.p }, r), ..*self }
                } else {
                    let (value, s) = self.read_result(info.address as int);
                    let (r, carry) = ror_of(value, s.p.carry);
                    &&& after.p == with_zn(Status { carry, ..s.p }, r)
                    &&& s.write_done(info.address as int, r, &CPU { p: s.p, ..*after })
                }
            },
            Instr::INC => {
                &&& ({
                    let (value, s) = self.read_result(info.address as int);
                    let r = value.wrapping_add(1);
                    &&& after.p == with_zn(s.p, r)
                    &&& s.write_done(info.address as int, r, &CPU { p: s.p, ..*after })
                })
            },
            Instr::DEC => {
                &&& ({
                    let (value, s) = self.read_result(info.address as int);
                    let r = value.wrapping_sub(1);
                    &&& after.p == with_zn(s.p, r)
                    &&& s.write_done(info.address as int, r, &CPU { p: s.p, ..*after })
                })
            },
            Instr::INX => {
                &&& *after == (CPU {
                    x: self.x.wrapping_add(1),
                    p: with_zn(self.p, self.x.wrapping_add(1)),
                    ..*self
                })
            },
            Instr::INY => {
                &&& *after == (CPU {
                    y: self.y.wrapping_add(1),
                    p: with_zn(self.p, self.y.wrapping_add(1)),
                    ..*self
                })
            },
            Instr::DEX => {
                &&& *after == (CPU {
                    x: self.x.wrapping_sub(1),
                    p: with_zn(self.p, self.x.wrapping_sub(1)),
                    ..*self
                })
            },
            Instr::DEY => {
                &&& *after == (CPU {
                    y: self.y.wrapping_sub(1),
                    p: with_zn(self.p, self.y.wrapping_sub(1)),
                    ..*self
                })
            },
            Instr::TAX => {
                &&& *after == (CPU { x: self.a, p: with_zn(self.p, self.a), ..*self })
            },
            Instr::TAY => {
                &&& *after == (CPU { y: self.a, p: with_zn(self.p, self.a), ..*self })
            },
            Instr::TSX => {
                &&& *after == (CPU { x: self.sp, p: with_zn(self.p, self.sp), ..*self })
            },
            Instr::TXA => {
                &&& *after == (CPU { a: self.x, p: with_zn(self.p, self.x), ..*self })
            },
            Instr::TYA => {
                &&& *after == (CPU { a: self.y, p: with_zn(self.p, self.y), ..*self })
            },
            Instr::TXS => {
                &&& *after == (CPU { sp: self.x, ..*self })
            },
            Instr::CLC => {
                &&& *after == (CPU { p: Status { carry: false, ..self.p }, ..*self })
            },
            Instr::CLD => {
                &&& *after == (CPU { p: Status { decimal: false, ..self.p }, ..*self })
            },
            Instr::CLI => {
                &&& *after == (CPU { p: Status { interrupt: false, ..self.p }, ..*self })
            },
            Instr::CLV => {
                &&& *after == (CPU { p: Status { overflow: false, ..self.p }, ..*self })
            },
            Instr::SEC => {
                &&& *after == (CPU { p: Status { carry: true, ..self.p }, ..*self })
            },
            Instr::SED => {
                &&& *after == (CPU { p: Status { decimal: true, ..self.p }, ..*self })
            },
            Instr::SEI => {
                &&& *after == (CPU { p: Status { interrupt: true, ..self.p }, ..*self })
            },
            Instr::STA => {
                &&& self.write_done(info.address as int, self.a, after)
            },
            Instr::STX => {
                &&& self.write_done(info.address as int, self.x, after)
            },
            Instr::STY => {
                &&& self.write_done(info.address as int, self.y, after)
            },
            Instr::BCC => {
                &&& *after == if !self.p.carry {
                    self.after_branch(info.address as int)
                } else {
                    *self
                }
            },
            Instr::BCS => {
                &&& *after == if self.p.carry {
                    self.after_branch(info.address as int)
                } else {
                    *self
                }
            },
            Instr::BEQ => {
                &&& *after == if self.p.zero {
                    self.after_branch(info.address as int)
                } else {
                    *self
                }
            },
            Instr::BNE => {
                &&& *after == if !self.p.zero {
                    self.after_branch(info.address as int)
                } else {
                    *self
                }
            },
            Instr::BMI => {
                &&& *after == if self.p.negative {
                    self.after_branch(info.address as int)
                } else {
                    *self
                }
            },
            Instr::BPL => {
                &&& *after == if !self.p.negative {
                    self.after_branch(info.address as int)
                } else {
                    *self
                }
            },
            Instr::BVC => {
                &&& *after == if !self.p.overflow {
                    self.after_branch(info.address as int)
                } else {
                    *self
                }
            },
            Instr::BVS => {
                &&& *after == if self.p.overflow {
                    self.after_branch(info.address as int)
                } else {
                    *self
                }
            },
            Instr::JMP => {
                &&& *after == (CPU { pc: info.address as u16, ..*self })
            },
            Instr::JSR => {
                &&& ({
                    let ret = self.pc.wrapping_sub(1);
                    &&& after.memory@ == stack_push(
                        stack_push(self.memory@, self.sp, (ret >> 8) as u8),
                        self.sp.wrapping_sub(1),
                        (ret & 0xff) as u8,
                    )
                    &&& *after == CPU {
                        memory: after.memory,
                        sp: self.sp.wrapping_sub(1).wrapping_sub(1),
                        pc: info.address as u16,
                        ..*self
                    }
                })
            },
            Instr::RTS => {
                &&& *after == (CPU {
                    sp: self.sp.wrapping_add(1).wrapping_add(1),
                    pc: (((self.memory@[0x100 + self.sp.wrapping_add(1).wrapping_add(1)] as u16)
                        << 8) | (self.memory@[0x100 + self.sp.wrapping_add(1)] as u16)).wrapping_add(1),
                    ..*self
                })
            },
            Instr::RTI => {
                &&& *after == (CPU {
                    sp: self.sp.wrapping_add(1).wrapping_add(1).wrapping_add(1),
                    p: status_of(self.memory@[0x100 + self.sp.wrapping_add(1)]),
                    pc: ((self.memory@[0x100 + self.sp.wrapping_add(1).wrapping_add(1).wrapping_add(1)] as u16)
                        << 8) | (self.memory@[0x100 + self.sp.wrapping_add(1).wrapping_add(1)] as u16),
                    ..*self
                })
            },
            Instr::PHA => {
                &&& after.memory@ == stack_push(self.memory@, self.sp, self.a)
                &&& *after == (CPU { memory: after.memory, sp: self.sp.wrapping_sub(1), ..*self })
            },
            Instr::PHP => {
                &&& after.memory@ == stack_push(self.memory@, self.sp, status_byte(self.p) | 0x30)
                &&& *after == (CPU { memory: after.memory, sp: self.sp.wrapping_sub(1), ..*self })
            },
            Instr::PLA => {
                &&& ({
                    let value = self.memory@[0x100 + self.sp.wrapping_add(1)];
                    *after == CPU { a: value, p: with_zn(self.p, value), sp: self.sp.wrapping_add(1), ..*self }
                })
            },
            Instr::PLP => {
                &&& *after == (CPU {
                    p: status_of(self.memory@[0x100 + self.sp.wrapping_add(1)]),
                    sp: self.sp.wrapping_add(1),
                    ..*self
                })
            },
            Instr::BRK => {
                &&& ({
                    let ret = self.pc.wrapping_add(1);
                    &&& after.memory@ == stack_push(
                        stack_push(
                            stack_push(self.memory@, self.sp, (ret >> 8) as u8),
                            self.sp.wrapping_sub(1),
                            (ret & 0xff) as u8,
                        ),
                        self.sp.wrapping_sub(1).wrapping_sub(1),
                        status_byte(self.p) | 0x30,
                    )
                    &&& *after == CPU {
                        memory: after.memory,
                        sp: self.sp.wrapping_sub(1).wrapping_sub(1).wrapping_sub(1),
                        p: Status { interrupt: true, ..self.p },
                        pc: self.vector(0xfffe),
                        ..*self
                    }
                })
            },
            Instr::NOP => {
                &&& *after == *self
            },
            Instr::STP => {
                &&& *after == *self
            },
            Instr::AHX => {
                &&& *after == *self
            },
            Instr::ALR => {
                &&& *after == *self
            },
            Instr::ANC => {
                &&& *after == *self
            },
            Instr::ARR => {
                &&& *after == *self
            },
            Instr::AXS => {
                &&& *after == *self
            },
            Instr::DCP => {
                &&& *after == *self
            },
            Instr::ISC => {
                &&& *after == *self
            },
            Instr::LAS => {
                &&& *after == *self
            },
            Instr::LAX => {
                &&& *after == *self
            },
            Instr::RLA => {
                &&& *after == *self
            },
            Instr::RRA => {
                &&& *after == *self
            },
            Instr::SAX => {
                &&& *after == *self
            },
            Instr::SHX => {
                &&& *after == *self
            },
            Instr::SHY => {
                &&& *after == *self
            },
            Instr::SLO => {
                &&& *after == *self
            },
            Instr::SRE => {
                &&& *after == *self
            },
            Instr::TAS => {
                &&& *after == *self
            },
            Instr::XAA => {
                &&& *after == *self
            },
        }
    }

    /// A + M + C into A, with flags.
    fn add_with_carry(&mut self, value: u8)
        ensures
            *final(self) == (CPU {
                a: adc_result(old(self).a, value, old(self).p.carry),
                p: adc_status(old(self).p, old(self).a, value),
                ..*old(self)
            }),
    {
        let a = self.a;
        let sum: u16 = a as u16 + value as u16 + if self.p.carry {
            1
        } else {
            0
        };
        let result = (sum % 256) as u8;
        self.p.carry = sum > 255;
        self.p.set_zn(result);
        self.p.overflow = (value ^ result) & (a ^ result) & 0x80 != 0;
        self.a = result;
    }

    /// Writes back a read-modify-write result; registers are kept.
    fn modify(&mut self, address: usize, value: u8)
        requires
            old(self).wf(),
            address <= 0xffff,
        ensures
            old(self).write_done(address as int, value, final(self)),
            final(self).p == old(self).p,
            final(self).wf(),
    {
        let ghost s = *self;
        self.write(address, value);
        proof {
            s.lemma_write_done(address as int, value, self);
        }
    }

    /// Loads A.
    pub fn lda(&mut self, info: StepInfo)
        requires
            old(self).wf(),
            info.address <= 0xffff,
        ensures
            final(self).wf(),
            ({
                let (value, s) = old(self).read_result(info.address as int);
                *final(self) == CPU { a: value, p: with_zn(s.p, value), ..s }
            }),
    {
        let value = self.read(info.address);
        self.a = value;
        self.p.set_zn(value);
    }
    /// Loads X.
    pub fn ldx(&mut self, info: StepInfo)
        requires
            old(self).wf(),
            info.address <= 0xffff,
        ensures
            final(self).wf(),
            ({
                let (value, s) = old(self).read_result(info.address as int);
                *final(self) == CPU { x: value, p: with_zn(s.p, value), ..s }
            }),
    {
        let value = self.read(info.address);
        self.x = value;
        self.p.set_zn(value);
    }
    /// Loads Y.
    pub fn ldy(&mut self, info: StepInfo)
        requires
            old(self).wf(),
            info.address <= 0xffff,
        ensures
            final(self).wf(),
            ({
                let (value, s) = old(self).read_result(info.address as int);
                *final(self) == CPU { y: value, p: with_zn(s.p, value), ..s }
            }),
    {
        let value = self.read(info.address);
        self.y = value;
        self.p.set_zn(value);
    }
    /// AND with A.
    pub fn and(&mut self, info: StepInfo)
        requires
            old(self).wf(),
            info.address <= 0xffff,
        ensures
            final(self).wf(),
            ({
                let (value, s) = old(self).read_result(info.address as int);
                *final(self) == CPU { a: s.a & value, p: with_zn(s.p, s.a & value), ..s }
            }),
    {
        let value = self.read(info.address);
        self.a = self.a & value;
        self.p.set_zn(self.a);
    }
    /// OR with A.
    pub fn ora(&mut self, info: StepInfo)
        requires
            old(self).wf(),
            info.address <= 0xffff,
        ensures
            final(self).wf(),
            ({
                let (value, s) = old(self).read_result(info.address as int);
                *final(self) == CPU { a: s.a | value, p: with_zn(s.p, s.a | value), ..s }
            }),
    {
        let value = self.read(info.address);
        self.a = self.a | value;
        self.p.set_zn(self.a);
    }
    /// Exclusive OR with A.
    pub fn eor(&mut self, info: StepInfo)
        requires
            old(self).wf(),
            info.address <= 0xffff,
        ensures
            final(self).wf(),
            ({
                let (value, s) = old(self).read_result(info.address as int);
                *final(self) == CPU { a: s.a ^ value, p: with_zn(s.p, s.a ^ value), ..s }
            }),
    {
        let value = self.read(info.address);
        self.a = self.a ^ value;
        self.p.set_zn(self.a);
    }
    /// Compares A: carry when A >= M, zero when equal, negative from A - M.
    pub fn cmp(&mut self, info: StepInfo)
        requires
            old(self).wf(),
            info.address <= 0xffff,
        ensures
            final(self).wf(),
            ({
                let (value, s) = old(self).read_result(info.address as int);
                *final(self) == CPU { p: compared(s.p, s.a, value), ..s }
            }),
    {
        let value = self.read(info.address);
        let reg = self.a;
        self.p.carry = reg >= value;
        self.p.zero = reg == value;
        self.p.set_negative(reg.wrapping_sub(value));
    }
    /// Compares X: carry when X >= M, zero when equal, negative from X - M.
    pub fn cpx(&mut self, info: StepInfo)
        requires
            old(self).wf(),
            info.address <= 0xffff,
        ensures
            final(self).wf(),
            ({
                let (value, s) = old(self).read_result(info.address as int);
                *final(self) == CPU { p: compared(s.p, s.x, value), ..s }
            }),
    {
        let value = self.read(info.address);
        let reg = self.x;
        self.p.carry = reg >= value;
        self.p.zero = reg == value;
        self.p.set_negative(reg.wrapping_sub(value));
    }
    /// Compares Y: carry when Y >= M, zero when equal, negative from Y - M.
    pub fn cpy(&mut self, info: StepInfo)
        requires
            old(self).wf(),
            info.address <= 0xffff,
        ensures
            final(self).wf(),
            ({
                let (value, s) = old(self).read_result(info.address as int);
                *final(self) == CPU { p: compared(s.p, s.y, value), ..s }
            }),
    {
        let value = self.read(info.address);
        let reg = self.y;
        self.p.carry = reg >= value;
        self.p.zero = reg == value;
        self.p.set_negative(reg.wrapping_sub(value));
    }
    /// Tests bits: overflow from bit 6, negative from bit 7, zero from M & A.
    pub fn bit(&mut self, info: StepInfo)
        requires
            old(self).wf(),
            info.address <= 0xffff,
        ensures
            final(self).wf(),
            ({
                let (value, s) = old(self).read_result(info.address as int);
                *final(self) == CPU {
                    p: Status {
                        overflow: (value >> 6) & 1 != 0,
                        zero: (value & s.a) == 0,
                        negative: (value & 0x80) == 0x80,
                        ..s.p
                    },
                    ..s
                }
            }),
    {
        let value = self.read(info.address);
        self.p.overflow = (value >> 6) & 0x1 != 0;
        self.p.set_zero(value & self.a);
        self.p.set_negative(value);
    }
    /// Adds M and carry to A.
    pub fn adc(&mut self, info: StepInfo)
        requires
            old(self).wf(),
            info.address <= 0xffff,
        ensures
            final(self).wf(),
            ({
                let (value, s) = old(self).read_result(info.address as int);
                *final(self) == CPU {
                    a: adc_result(s.a, value, s.p.carry),
                    p: adc_status(s.p, s.a, value),
                    ..s
                }
            }),
    {
        let value = self.read(info.address);
        self.add_with_carry(value);
    }
    /// Subtracts M and the borrow (carry clear) from A: ADC of !M.
    pub fn sbc(&mut self, info: StepInfo)
        requires
            old(self).wf(),
            info.address <= 0xffff,
        ensures
            final(self).wf(),
            ({
                let (value, s) = old(self).read_result(info.address as int);
                *final(self) == CPU {
                    a: adc_result(s.a, !value, s.p.carry),
                    p: adc_status(s.p, s.a, !value),
                    ..s
                }
            }),
    {
        let value = self.read(info.address);
        self.add_with_carry(!value);
    }
    /// Shifts left; carry from bit 7. Works on A in accumulator mode, else on memory.
    pub fn asl(&mut self, info: StepInfo)
        requires
            old(self).wf(),
            info.address <= 0xffff,
        ensures
            final(self).wf(),
            if info.mode == Mode::ACC {
                let (r, carry) = asl_of(old(self).a);
                *final(self) == CPU { a: r, p: with_zn(Status { carry, ..old(self).p }, r), ..*old(self) }
            } else {
                let (value, s) = old(self).read_result(info.address as int);
                let (r, carry) = asl_of(value);
                &&& final(self).p == with_zn(Status { carry, ..s.p }, r)
                &&& s.write_done(info.address as int, r, &CPU { p: s.p, ..*final(self) })
            },
    {
        if info.mode == Mode::ACC {
            let (r, carry) = asl_value(self.a);
            self.a = r;
            self.p.carry = carry;
            self.p.set_zn(r);
        } else {
            let value = self.read(info.address);
            let (r, carry) = asl_value(value);
            self.modify(info.address, r);
            self.p.carry = carry;
            self.p.set_zn(r);
        }
    }
    /// Shifts right; carry from bit 0. Works on A in accumulator mode, else on memory.
    pub fn lsr(&mut self, info: StepInfo)
        requires
            old(self).wf(),
            info.address <= 0xffff,
        ensures
            final(self).wf(),
            if info.mode == Mode::ACC {
                let (r, carry) = lsr_of(old(self).a);
                *final(self) == CPU { a: r, p: with_zn(Status { carry, ..old(self).p }, r), ..*old(self) }
            } else {
                let (value, s) = old(self).read_result(info.address as int);
                let (r, carry) = lsr_of(value);
                &&& final(self).p == with_zn(Status { carry, ..s.p }, r)
                &&& s.write_done(info.address as int, r, &CPU { p: s.p, ..*final(self) })
            },
    {
        if info.mode == Mode::ACC {
            let (r, carry) = lsr_value(self.a);
            self.a = r;
            self.p.carry = carry;
            self.p.set_zn(r);
        } else {
            let value = self.read(info.address);
            let (r, carry) = lsr_value(value);
            self.modify(info.address, r);
            self.p.carry = carry;
            self.p.set_zn(r);
        }
    }
    /// Rotates left through carry. Works on A in accumulator mode, else on memory.
    pub fn rol(&mut self, info: StepInfo)
        requires
            old(self).wf(),
            info.address <= 0xffff,
        ensures
            final(self).wf(),
            if info.mode == Mode::ACC {
                let (r, carry) = rol_of(old(self).a, old(self).p.carry);
                *final(self) == CPU { a: r, p: with_zn(Status { carry, ..old(self).p }, r), ..*old(self) }
            } else {
                let (value, s) = old(self).read_result(info.address as int);
                let (r, carry) = rol_of(value, s.p.carry);
                &&& final(self).p == with_zn(Status { carry, ..s.p }, r)
                &&& s.write_done(info.address as int, r, &CPU { p: s.p, ..*final(self) })
            },
    {
        if info.mode == Mode::ACC {
            let (r, carry) = rol_value(self.a, self.p.carry);
            self.a = r;
            self.p.carry = carry;
            self.p.set_zn(r);
        } else {
            let value = self.read(info.address);
            let (r, carry) = rol_value(value, self.p.carry);
            self.modify(info.address, r);
            self.p.carry = carry;
            self.p.set_zn(r);
        }
    }
    /// Rotates right through carry. Works on A in accumulator mode, else on memory.
    pub fn ror(&mut self, info: StepInfo)
        requires
            old(self).wf(),
            info.address <= 0xffff,
        ensures
            final(self).wf(),
            if info.mode == Mode::ACC {
                let (r, carry) = ror_of(old(self).a, old(self).p.carry);
                *final(self) == CPU { a: r, p: with_zn(Status { carry, ..old(self).p }, r), ..*old(self) }
            } else {
                let (value, s) = old(self).read_result(info.address as int);
                let (r, carry) = ror_of(value, s.p.carry);
                &&& final(self).p == with_zn(Status { carry, ..s.p }, r)
                &&& s.write_done(info.address as int, r, &CPU { p: s.p, ..*final(self) })
            },
    {
        if info.mode == Mode::ACC {
            let (r, carry) = ror_value(self.a, self.p.carry);
            self.a = r;
            self.p.carry = carry;
            self.p.set_zn(r);
        } else {
            let value = self.read(info.address);
            let (r, carry) = ror_value(value, self.p.carry);
            self.modify(info.address, r);
            self.p.carry = carry;
            self.p.set_zn(r);
        }
    }
    /// Increments memory.
    pub fn inc(&mut self, info: StepInfo)
        requires
            old(self).wf(),
            info.address <= 0xffff,
        ensures
            final(self).wf(),
            ({
                let (value, s) = old(self).read_result(info.address as int);
                let r = value.wrapping_add(1);
                &&& final(self).p == with_zn(s.p, r)
                &&& s.write_done(info.address as int, r, &CPU { p: s.p, ..*final(self) })
            }),
    {
        let r = self.read(info.address).wrapping_add(1);
        self.modify(info.address, r);
        self.p.set_zn(r);
    }
    /// Decrements memory.
    pub fn dec(&mut self, info: StepInfo)
        requires
            old(self).wf(),
            info.address <= 0xffff,
        ensures
            final(self).wf(),
            ({
                let (value, s) = old(self).read_result(info.address as int);
                let r = value.wrapping_sub(1);
                &&& final(self).p == with_zn(s.p, r)
                &&& s.write_done(info.address as int, r, &CPU { p: s.p, ..*final(self) })
            }),
    {
        let r = self.read(info.address).wrapping_sub(1);
        self.modify(info.address, r);
        self.p.set_zn(r);
    }
    /// Increments X.
    pub fn inx(&mut self, info: StepInfo)
        requires
            old(self).wf(),
            info.address <= 0xffff,
        ensures
            final(self).wf(),
            *final(self) == (CPU {
                x: old(self).x.wrapping_add(1),
                p: with_zn(old(self).p, old(self).x.wrapping_add(1)),
                ..*old(self)
            }),
    {
        self.x = self.x.wrapping_add(1);
        self.p.set_zn(self.x);
    }
    /// Increments Y.
    pub fn iny(&mut self, info: StepInfo)
        requires
            old(self).wf(),
            info.address <= 0xffff,
        ensures
            final(self).wf(),
            *final(self) == (CPU {
                y: old(self).y.wrapping_add(1),
                p: with_zn(old(self).p, old(self).y.wrapping_add(1)),
                ..*old(self)
            }),
    {
        self.y = self.y.wrapping_add(1);
        self.p.set_zn(self.y);
    }
    /// Decrements X.
    pub fn dex(&mut self, info: StepInfo)
        requires
            old(self).wf(),
            info.address <= 0xffff,
        ensures
            final(self).wf(),
            *final(self) == (CPU {
                x: old(self).x.wrapping_sub(1),
                p: with_zn(old(self).p, old(self).x.wrapping_sub(1)),
                ..*old(self)
            }),
    {
        self.x = self.x.wrapping_sub(1);
        self.p.set_zn(self.x);
    }
    /// Decrements Y.
    pub fn dey(&mut self, info: StepInfo)
        requires
            old(self).wf(),
            info.address <= 0xffff,
        ensures
            final(self).wf(),
            *final(self) == (CPU {
                y: old(self).y.wrapping_sub(1),
                p: with_zn(old(self).p, old(self).y.wrapping_sub(1)),
                ..*old(self)
            }),
    {
        self.y = self.y.wrapping_sub(1);
        self.p.set_zn(self.y);
    }
    /// Copies A to X.
    pub fn tax(&mut self, info: StepInfo)
        requires
            old(self).wf(),
            info.address <= 0xffff,
        ensures
            final(self).wf(),
            *final(self) == (CPU { x: old(self).a, p: with_zn(old(self).p, old(self).a), ..*old(self) }),
    {
        self.x = self.a;
        self.p.set_zn(self.x);
    }
    /// Copies A to Y.
    pub fn tay(&mut self, info: StepInfo)
        requires
            old(self).wf(),
            info.address <= 0xffff,
        ensures
            final(self).wf(),
            *final(self) == (CPU { y: old(self).a, p: with_zn(old(self).p, old(self).a), ..*old(self) }),
    {
        self.y = self.a;
        self.p.set_zn(self.y);
    }
    /// Copies SP to X.
    pub fn tsx(&mut self, info: StepInfo)
        requires
            old(self).wf(),
            info.address <= 0xffff,
        ensures
            final(self).wf(),
            *final(self) == (CPU { x: old(self).sp, p: with_zn(old(self).p, old(self).sp), ..*old(self) }),
    {
        self.x = self.sp;
        self.p.set_zn(self.x);
    }
    /// Copies X to A.
    pub fn txa(&mut self, info: StepInfo)
        requires
            old(self).wf(),
            info.address <= 0xffff,
        ensures
            final(self).wf(),
            *final(self) == (CPU { a: old(self).x, p: with_zn(old(self).p, old(self).x), ..*old(self) }),
    {
        self.a = self.x;
        self.p.set_zn(self.a);
    }
    /// Copies Y to A.
    pub fn tya(&mut self, info: StepInfo)
        requires
            old(self).wf(),
            info.address <= 0xffff,
        ensures
            final(self).wf(),
            *final(self) == (CPU { a: old(self).y, p: with_zn(old(self).p, old(self).y), ..*old(self) }),
    {
        self.a = self.y;
        self.p.set_zn(self.a);
    }
    /// Copies X to SP.
    pub fn txs(&mut self, info: StepInfo)
        requires
            old(self).wf(),
            info.address <= 0xffff,
        ensures
            final(self).wf(),
            *final(self) == (CPU { sp: old(self).x, ..*old(self) }),
    {
        self.sp = self.x;
    }
    /// Clears carry.
    pub fn clc(&mut self, info: StepInfo)
        requires
            old(self).wf(),
            info.address <= 0xffff,
        ensures
            final(self).wf(),
            *final(self) == (CPU { p: Status { carry: false, ..old(self).p }, ..*old(self) }),
    {
        self.p.carry = false;
    }
    /// Clears decimal.
    pub fn cld(&mut self, info: StepInfo)
        requires
            old(self).wf(),
            info.address <= 0xffff,
        ensures
            final(self).wf(),
            *final(self) == (CPU { p: Status { decimal: false, ..old(self).p }, ..*old(self) }),
    {
        self.p.decimal = false;
    }
    /// Clears interrupt.
    pub fn cli(&mut self, info: StepInfo)
        requires
            old(self).wf(),
            info.address <= 0xffff,
        ensures
            final(self).wf(),
            *final(self) == (CPU { p: Status { interrupt: false, ..old(self).p }, ..*old(self) }),
    {
        self.p.interrupt = false;
    }
    /// Clears overflow.
    pub fn clv(&mut self, info: StepInfo)
        requires
            old(self).wf(),
            info.address <= 0xffff,
        ensures
            final(self).wf(),
            *final(self) == (CPU { p: Status { overflow: false, ..old(self).p }, ..*old(self) }),
    {
        self.p.overflow = false;
    }
    /// Sets carry.
    pub fn sec(&mut self, info: StepInfo)
        requires
            old(self).wf(),
            info.address <= 0xffff,
        ensures
            final(self).wf(),
            *final(self) == (CPU { p: Status { carry: true, ..old(self).p }, ..*old(self) }),
    {
        self.p.carry = true;
    }
    /// Sets decimal.
    pub fn sed(&mut self, info: StepInfo)
        requires
            old(self).wf(),
            info.address <= 0xffff,
        ensures
            final(self).wf(),
            *final(self) == (CPU { p: Status { decimal: true, ..old(self).p }, ..*old(self) }),
    {
        self.p.decimal = true;
    }
    /// Sets interrupt.
    pub fn sei(&mut self, info: StepInfo)
        requires
            old(self).wf(),
            info.address <= 0xffff,
        ensures
            final(self).wf(),
            *final(self) == (CPU { p: Status { interrupt: true, ..old(self).p }, ..*old(self) }),
    {
        self.p.interrupt = true;
    }
    /// Stores A.
    pub fn sta(&mut self, info: StepInfo)
        requires
            old(self).wf(),
            info.address <= 0xffff,
        ensures
            final(self).wf(),
            old(self).write_done(info.address as int, old(self).a, final(self)),
    {
        self.write(info.address, self.a);
    }
    /// Stores X.
    pub fn stx(&mut self, info: StepInfo)
        requires
            old(self).wf(),
            info.address <= 0xffff,
        ensures
            final(self).wf(),
            old(self).write_done(info.address as int, old(self).x, final(self)),
    {
        self.write(info.address, self.x);
    }
    /// Stores Y.
    pub fn sty(&mut self, info: StepInfo)
        requires
            old(self).wf(),
            info.address <= 0xffff,
        ensures
            final(self).wf(),
            old(self).write_done(info.address as int, old(self).y, final(self)),
    {
        self.write(info.address, self.y);
    }
    /// Branches when carry clear.
    pub fn bcc(&mut self, info: StepInfo)
        requires
            old(self).wf(),
            info.address <= 0xffff,
        ensures
            final(self).wf(),
            *final(self) == if !old(self).p.carry {
                old(self).after_branch(info.address as int)
            } else {
                *old(self)
            },
    {
        if !self.p.carry {
            self.branch(info);
        }
    }
    /// Branches when carry set.
    pub fn bcs(&mut self, info: StepInfo)
        requires
            old(self).wf(),
            info.address <= 0xffff,
        ensures
            final(self).wf(),
            *final(self) == if old(self).p.carry {
                old(self).after_branch(info.address as int)
            } else {
                *old(self)
            },
    {
        if self.p.carry {
            self.branch(info);
        }
    }
    /// Branches when zero set.
    pub fn beq(&mut self, info: StepInfo)
        requires
            old(self).wf(),
            info.address <= 0xffff,
        ensures
            final(self).wf(),
            *final(self) == if old(self).p.zero {
                old(self).after_branch(info.address as int)
            } else {
                *old(self)
            },
    {
        if self.p.zero {
            self.branch(info);
        }
    }
    /// Branches when zero clear.
    pub fn bne(&mut self, info: StepInfo)
        requires
            old(self).wf(),
            info.address <= 0xffff,
        ensures
            final(self).wf(),
            *final(self) == if !old(self).p.zero {
                old(self).after_branch(info.address as int)
            } else {
                *old(self)
            },
    {
        if !self.p.zero {
            self.branch(info);
        }
    }
    /// Branches when negative set.
    pub fn bmi(&mut self, info: StepInfo)
        requires
            old(self).wf(),
            info.address <= 0xffff,
        ensures
            final(self).wf(),
            *final(self) == if old(self).p.negative {
                old(self).after_branch(info.address as int)
            } else {
                *old(self)
            },
    {
        if self.p.negative {
            self.branch(info);
        }
    }
    /// Branches when negative clear.
    pub fn bpl(&mut self, info: StepInfo)
        requires
            old(self).wf(),
            info.address <= 0xffff,
        ensures
            final(self).wf(),
            *final(self) == if !old(self).p.negative {
                old(self).after_branch(info.address as int)
            } else {
                *old(self)
            },
    {
        if !self.p.negative {
            self.branch(info);
        }
    }
    /// Branches when overflow clear.
    pub fn bvc(&mut self, info: StepInfo)
        requires
            old(self).wf(),
            info.address <= 0xffff,
        ensures
            final(self).wf(),
            *final(self) == if !old(self).p.overflow {
                old(self).after_branch(info.address as int)
            } else {
                *old(self)
            },
    {
        if !self.p.overflow {
            self.branch(info);
        }
    }
    /// Branches when overflow set.
    pub fn bvs(&mut self, info: StepInfo)
        requires
            old(self).wf(),
            info.address <= 0xffff,
        ensures
            final(self).wf(),
            *final(self) == if old(self).p.overflow {
                old(self).after_branch(info.address as int)
            } else {
                *old(self)
            },
    {
        if self.p.overflow {
            self.branch(info);
        }
    }
    /// Jumps to the operand address.
    pub fn jmp(&mut self, info: StepInfo)
        requires
            old(self).wf(),
            info.address <= 0xffff,
        ensures
            final(self).wf(),
            *final(self) == (CPU { pc: info.address as u16, ..*old(self) }),
    {
        self.pc = info.address as u16;
    }
    /// Pushes PC - 1 and jumps.
    pub fn jsr(&mut self, info: StepInfo)
        requires
            old(self).wf(),
            info.address <= 0xffff,
        ensures
            final(self).wf(),
            ({
                let ret = old(self).pc.wrapping_sub(1);
                &&& final(self).memory@ == stack_push(
                    stack_push(old(self).memory@, old(self).sp, (ret >> 8) as u8),
                    old(self).sp.wrapping_sub(1),
                    (ret & 0xff) as u8,
                )
                &&& *final(self) == CPU {
                    memory: final(self).memory,
                    sp: old(self).sp.wrapping_sub(1).wrapping_sub(1),
                    pc: info.address as u16,
                    ..*old(self)
                }
            }),
    {
        self.push_u16(self.pc.wrapping_sub(1));
        self.pc = info.address as u16;
    }
    /// Pops the return address and adds one.
    pub fn rts(&mut self, info: StepInfo)
        requires
            old(self).wf(),
            info.address <= 0xffff,
        ensures
            final(self).wf(),
            *final(self) == (CPU {
                sp: old(self).sp.wrapping_add(1).wrapping_add(1),
                pc: (((old(self).memory@[0x100 + old(self).sp.wrapping_add(1).wrapping_add(1)] as u16)
                    << 8) | (old(self).memory@[0x100 + old(self).sp.wrapping_add(1)] as u16)).wrapping_add(1),
                ..*old(self)
            }),
    {
        self.pc = self.pop_u16().wrapping_add(1);
    }
    /// Pops the flags (bits 4-5 ignored), then PC.
    pub fn rti(&mut self, info: StepInfo)
        requires
            old(self).wf(),
            info.address <= 0xffff,
        ensures
            final(self).wf(),
            *final(self) == (CPU {
                sp: old(self).sp.wrapping_add(1).wrapping_add(1).wrapping_add(1),
                p: status_of(old(self).memory@[0x100 + old(self).sp.wrapping_add(1)]),
                pc: ((old(self).memory@[0x100 + old(self).sp.wrapping_add(1).wrapping_add(1).wrapping_add(1)] as u16)
                    << 8) | (old(self).memory@[0x100 + old(self).sp.wrapping_add(1).wrapping_add(1)] as u16),
                ..*old(self)
            }),
    {
        let flags = self.pop();
        self.p = Status::from_byte(flags);
        self.pc = self.pop_u16();
    }
    /// Pushes A.
    pub fn pha(&mut self, info: StepInfo)
        requires
            old(self).wf(),
            info.address <= 0xffff,
        ensures
            final(self).wf(),
            final(self).memory@ == stack_push(old(self).memory@, old(self).sp, old(self).a),
            *final(self) == (CPU { memory: final(self).memory, sp: old(self).sp.wrapping_sub(1), ..*old(self) }),
    {
        self.push(self.a);
    }
    /// Pushes the flags with bits 4-5 set.
    pub fn php(&mut self, info: StepInfo)
        requires
            old(self).wf(),
            info.address <= 0xffff,
        ensures
            final(self).wf(),
            final(self).memory@ == stack_push(old(self).memory@, old(self).sp, status_byte(old(self).p) | 0x30),
            *final(self) == (CPU { memory: final(self).memory, sp: old(self).sp.wrapping_sub(1), ..*old(self) }),
    {
        let flags = self.p.to_u8() | 0x30;
        self.push(flags);
    }
    /// Pops A.
    pub fn pla(&mut self, info: StepInfo)
        requires
            old(self).wf(),
            info.address <= 0xffff,
        ensures
            final(self).wf(),
            ({
                let value = old(self).memory@[0x100 + old(self).sp.wrapping_add(1)];
                *final(self) == CPU { a: value, p: with_zn(old(self).p, value), sp: old(self).sp.wrapping_add(1), ..*old(self) }
            }),
    {
        self.a = self.pop();
        self.p.set_zn(self.a);
    }
    /// Pops the flags; bits 4-5 are ignored.
    pub fn plp(&mut self, info: StepInfo)
        requires
            old(self).wf(),
            info.address <= 0xffff,
        ensures
            final(self).wf(),
            *final(self) == (CPU {
                p: status_of(old(self).memory@[0x100 + old(self).sp.wrapping_add(1)]),
                sp: old(self).sp.wrapping_add(1),
                ..*old(self)
            }),
    {
        let flags = self.pop();
        self.p = Status::from_byte(flags);
    }
    /// Software interrupt: pushes PC + 1 and the flags with bits 4-5 set, sets I, and jumps through $FFFE.
    pub fn brk(&mut self, info: StepInfo)
        requires
            old(self).wf(),
            info.address <= 0xffff,
        ensures
            final(self).wf(),
            ({
                let ret = old(self).pc.wrapping_add(1);
                &&& final(self).memory@ == stack_push(
                    stack_push(
                        stack_push(old(self).memory@, old(self).sp, (ret >> 8) as u8),
                        old(self).sp.wrapping_sub(1),
                        (ret & 0xff) as u8,
                    ),
                    old(self).sp.wrapping_sub(1).wrapping_sub(1),
                    status_byte(old(self).p) | 0x30,
                )
                &&& *final(self) == CPU {
                    memory: final(self).memory,
                    sp: old(self).sp.wrapping_sub(1).wrapping_sub(1).wrapping_sub(1),
                    p: Status { interrupt: true, ..old(self).p },
                    pc: old(self).vector(0xfffe),
                    ..*old(self)
                }
            }),
    {
        self.push_u16(self.pc.wrapping_add(1));
        let flags = self.p.to_u8() | 0x30;
        self.push(flags);
        self.p.interrupt = true;
        self.pc = self.read_vector(0xfffe);
    }
    /// No operation.
    pub fn nop(&mut self, info: StepInfo)
        ensures
            *final(self) == *old(self),
    {
    }
    /// Halt opcode (STP/KIL); executed as a no-op.
    pub fn stp(&mut self, info: StepInfo)
        ensures
            *final(self) == *old(self),
    {
    }
}

} // verus!
