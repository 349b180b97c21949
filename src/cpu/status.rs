use vstd::prelude::*;

verus! {

/// The 6502 flag register. Bits 4 and 5 have no storage: they are made up
/// when the register is pushed.
#[derive(Copy, Clone, Debug, PartialEq, Eq, Structural)]
pub struct Status {
    pub negative: bool,
    pub overflow: bool,
    pub decimal: bool,
    pub interrupt: bool,
    pub zero: bool,
    pub carry: bool,
}

/// Flags held in a byte: N V - - D I Z C.
pub open spec fn status_of(byte: u8) -> Status {
    Status {
        negative: (byte >> 7) & 1 != 0,
        overflow: (byte >> 6) & 1 != 0,
        decimal: (byte >> 3) & 1 != 0,
        interrupt: (byte >> 2) & 1 != 0,
        zero: (byte >> 1) & 1 != 0,
        carry: byte & 1 != 0,
    }
}

/// The byte of a flag register, with bits 4 and 5 clear.
pub open spec fn status_byte(s: Status) -> u8 {
    (if s.negative { 0x80u8 } else { 0 }) | (if s.overflow { 0x40u8 } else { 0 }) | (if s.decimal {
        0x08u8
    } else {
        0
    }) | (if s.interrupt { 0x04u8 } else { 0 }) | (if s.zero { 0x02u8 } else { 0 }) | (if s.carry {
        0x01u8
    } else {
        0
    })
}

/// Zero and negative set from a result.
pub open spec fn with_zn(s: Status, value: u8) -> Status {
    Status { zero: value == 0, negative: (value & 0x80) == 0x80, ..s }
}

impl Status {
    pub fn new() -> (r: Status)
        ensures
            r == status_of(0),
    {
        proof {
            assert(((0u8 >> 7) & 1) == 0 && ((0u8 >> 6) & 1) == 0 && ((0u8 >> 3) & 1) == 0 && ((0u8
                >> 2) & 1) == 0 && ((0u8 >> 1) & 1) == 0 && (0u8 & 1) == 0) by (bit_vector);
        }
        Status {
            negative: false,
            overflow: false,
            decimal: false,
            interrupt: false,
            zero: false,
            carry: false,
        }
    }

    pub fn set_negative(&mut self, num: u8)
        ensures
            *final(self) == (Status { negative: (num & 0x80) == 0x80, ..*old(self) }),
    {
        self.negative = (num & 0x80) == 0x80;
    }

    pub fn set_zero(&mut self, num: u8)
        ensures
            *final(self) == (Status { zero: num == 0, ..*old(self) }),
    {
        self.zero = num == 0;
    }

    /// Sets zero and negative from a result.
    pub fn set_zn(&mut self, num: u8)
        ensures
            *final(self) == with_zn(*old(self), num),
    {
        self.set_zero(num);
        self.set_negative(num);
    }

    /// The flag register as a byte, bits 4 and 5 clear.
    pub fn to_u8(&self) -> (r: u8)
        ensures
            r == status_byte(*self),
    {
        (if self.negative { 0x80u8 } else { 0 }) | (if self.overflow { 0x40u8 } else { 0 }) | (
        if self.decimal {
            0x08u8
        } else {
            0
        }) | (if self.interrupt { 0x04u8 } else { 0 }) | (if self.zero { 0x02u8 } else { 0 }) | (
        if self.carry {
            0x01u8
        } else {
            0
        })
    }

    /// Flags read from a byte; bits 4 and 5 are ignored.
    pub fn from_byte(byte: u8) -> (r: Status)
        ensures
            r == status_of(byte),
    {
        Status {
            negative: ((byte >> 7) & 0x1) != 0,
            overflow: ((byte >> 6) & 0x1) != 0,
            decimal: ((byte >> 3) & 0x1) != 0,
            interrupt: ((byte >> 2) & 0x1) != 0,
            zero: ((byte >> 1) & 0x1) != 0,
            carry: (byte & 0x1) != 0,
        }
    }
}

impl From<u8> for Status {
    fn from(byte: u8) -> (r: Status) {
        Status::from_byte(byte)
    }
}

impl vstd::std_specs::convert::FromSpecImpl<u8> for Status {
    open spec fn obeys_from_spec() -> bool {
        true
    }

    open spec fn from_spec(byte: u8) -> Status {
        status_of(byte)
    }
}

impl From<Status> for u8 {
    fn from(status: Status) -> (r: u8) {
        status.to_u8()
    }
}

impl vstd::std_specs::convert::FromSpecImpl<Status> for u8 {
    open spec fn obeys_from_spec() -> bool {
        true
    }

    open spec fn from_spec(status: Status) -> u8 {
        status_byte(status)
    }
}

/// Reading flags from a byte and writing them back keeps N V D I Z C and
/// clears bits 4 and 5.
pub proof fn lemma_status_round_trip(b: u8)
    ensures
        status_byte(status_of(b)) == b & 0xcf,
{
    let s = status_of(b);
    assert(((if (b >> 7) & 1 != 0 { 128u8 } else { 0u8 }) | (if (b >> 6) & 1 != 0 { 64u8 } else {
        0u8
    }) | (if (b >> 3) & 1 != 0 { 8u8 } else { 0u8 }) | (if (b >> 2) & 1 != 0 { 4u8 } else { 0u8 })
        | (if (b >> 1) & 1 != 0 { 2u8 } else { 0u8 }) | (if b & 1 != 0 { 1u8 } else { 0u8 })) == b
        & 0xcf) by (bit_vector);
}

} // verus!
