use vstd::prelude::*;

verus! {

/// 6502 addressing modes.
#[derive(Copy, Clone, Debug, PartialEq, Eq, Structural)]
pub enum Mode {
    /// Absolute
    ABS,
    /// Absolute,X
    ABX,
    /// Absolute,Y
    ABY,
    /// Accumulator
    ACC,
    /// Immediate
    IMM,
    /// Implied
    IMP,
    /// (Indirect,X)
    IDX,
    /// Indirect (JMP only)
    IND,
    /// (Indirect),Y
    INX,
    /// Relative (branches)
    REL,
    /// Zero page
    ZPG,
    /// Zero page,X
    ZPX,
    /// Zero page,Y
    ZPY,
}

} // verus!
