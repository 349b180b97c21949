pub mod mapper0;
pub mod mapper1;
pub mod mapper2;
pub mod mapper3;

use vstd::prelude::*;

use crate::cartridge::mapper0::NROM;
use crate::cartridge::mapper1::MMC1;
use crate::cartridge::mapper2::UxROM;
use crate::cartridge::mapper3::CNROM;

verus! {

pub const PRG_BANK_SIZE: usize = 0x4000;
pub const CHR_BANK_SIZE: usize = 0x2000;

/// Nametable arrangement selected by the cartridge.
#[derive(Copy, Clone, Debug, PartialEq, Eq, Structural)]
pub enum Mirror {
    Horizontal,
    Vertical,
    Single0,
    Single1,
    Four,
}

/// Why an image could not be decoded.
#[derive(Copy, Clone, Debug, PartialEq, Eq, Structural)]
pub enum DecodeError {
    /// The first four bytes are not `NES\x1a`.
    BadSignature,
    /// The image is shorter than its header says.
    Truncated,
    /// The header declares no PRG bank.
    NoPrgRom,
    /// The mapper number is not one of NROM (0), MMC1 (1), UxROM (2), CNROM (3).
    UnsupportedMapper(u8),
}

/// Cartridge address decoding: bank switching and nametable mirroring.
///
/// `read` and `write` take any 16-bit address; ranges a board does not
/// decode read as 0 and ignore writes.
pub trait Mapper: Sized {
    spec fn wf(&self) -> bool;

    spec fn spec_read(&self, address: int) -> u8;

    /// `after` is the board once `value` is written at `address`.
    spec fn spec_written(&self, address: int, value: u8, after: &Self) -> bool;

    spec fn spec_mirror(&self) -> Mirror;

    /// Battery-backed RAM to persist, when the board has it.
    spec fn spec_battery(&self) -> Option<Seq<u8>>;

    /// `after` is the board once `data` is restored into its battery RAM.
    spec fn spec_battery_loaded(&self, data: Seq<u8>, after: &Self) -> bool;

    fn read(&self, address: usize) -> (r: u8)
        requires
            self.wf(),
            address <= 0xffff,
        ensures
            r == self.spec_read(address as int),
    ;

    fn write(&mut self, address: usize, value: u8)
        requires
            old(self).wf(),
            address <= 0xffff,
        ensures
            old(self).spec_written(address as int, value, final(self)),
            final(self).wf(),
    ;

    fn get_mirror(&self) -> (r: Mirror)
        ensures
            r == self.spec_mirror(),
    ;

    /// Restores battery-backed RAM from a saved image.
    fn load_battery(&mut self, data: &Vec<u8>)
        requires
            old(self).wf(),
        ensures
            old(self).spec_battery_loaded(data@, final(self)),
            final(self).wf(),
    ;

    /// The battery-backed RAM image to save, if any.
    fn save_battery(&self) -> (r: Option<Vec<u8>>)
        ensures
            r matches Some(v) ==> self.spec_battery() == Some(v@),
            r is None ==> self.spec_battery() is None,
    ;

    /// Per-cycle hook; none of the supported boards counts cycles.
    fn step(&mut self)
        ensures
            *final(self) == *old(self),
    ;
}

#[derive(Debug)]
pub struct NesHeader {
    pub file_path: String,
    pub prg_rom_size: usize,
    pub chr_rom_size: usize,
    pub mirror: Mirror,
    pub battery_backed_ram: bool,
    pub trainer: bool,
    pub ignore_mirror: bool,
}

/// A decoded image: PRG ROM in 16 KiB banks, CHR ROM in 8 KiB banks.
#[derive(Debug)]
pub struct Cartridge {
    pub header: NesHeader,
    pub prg: Vec<Vec<u8>>,
    pub chr: Vec<Vec<u8>>,
    pub mapper: u8,
}

impl Cartridge {
    pub open spec fn wf(&self) -> bool {
        &&& self.prg.len() == self.header.prg_rom_size
        &&& 1 <= self.prg.len() <= 255
        &&& self.chr.len() == self.header.chr_rom_size
        &&& self.chr.len() <= 255
        &&& forall|i: int| 0 <= i < self.prg.len() ==> (#[trigger] self.prg@[i])@.len() == PRG_BANK_SIZE
        &&& forall|i: int| 0 <= i < self.chr.len() ==> (#[trigger] self.chr@[i])@.len() == CHR_BANK_SIZE
    }

    /// Byte `offset` of PRG bank `bank`.
    pub open spec fn prg_byte(&self, bank: int, offset: int) -> u8 {
        self.prg@[bank]@[offset]
    }

    /// Byte `offset` of CHR bank `bank`.
    pub open spec fn chr_byte(&self, bank: int, offset: int) -> u8 {
        self.chr@[bank]@[offset]
    }
}

pub open spec fn has_signature(b: Seq<u8>) -> bool {
    b.len() >= 4 && b[0] == 0x4e && b[1] == 0x45 && b[2] == 0x53 && b[3] == 0x1a
}

/// Where PRG ROM starts: after the header and the optional trainer.
pub open spec fn prg_offset(b: Seq<u8>) -> int {
    16 + if b[6] & 4 != 0 {
        512int
    } else {
        0int
    }
}

pub open spec fn chr_offset(b: Seq<u8>) -> int {
    prg_offset(b) + b[4] * PRG_BANK_SIZE
}

pub open spec fn image_len(b: Seq<u8>) -> int {
    chr_offset(b) + b[5] * CHR_BANK_SIZE
}

/// The error decoding reports for an image, if any.
pub open spec fn decode_error(b: Seq<u8>) -> Option<DecodeError> {
    if b.len() < 16 {
        Some(DecodeError::Truncated)
    } else if !has_signature(b) {
        Some(DecodeError::BadSignature)
    } else if b[4] == 0 {
        Some(DecodeError::NoPrgRom)
    } else if b.len() < image_len(b) {
        Some(DecodeError::Truncated)
    } else {
        None
    }
}

pub open spec fn header_mirror(flags6: u8) -> Mirror {
    if flags6 & 8 != 0 {
        Mirror::Four
    } else if flags6 & 1 != 0 {
        Mirror::Vertical
    } else {
        Mirror::Horizontal
    }
}

/// Mapper number: high nibble from flags 7, low nibble from flags 6.
pub open spec fn mapper_id(b: Seq<u8>) -> u8 {
    (b[7] & 0xf0) | (b[6] >> 4)
}

/// `c` holds exactly what the image `b` describes.
pub open spec fn decoded_from(c: &Cartridge, b: Seq<u8>, path: Seq<char>) -> bool {
    &&& c.header.file_path@ == path
    &&& c.header.prg_rom_size == b[4]
    &&& c.header.chr_rom_size == b[5]
    &&& c.header.mirror == header_mirror(b[6])
    &&& c.header.battery_backed_ram == (b[6] & 2 != 0)
    &&& c.header.trainer == (b[6] & 4 != 0)
    &&& c.header.ignore_mirror == (b[6] & 8 != 0)
    &&& c.mapper == mapper_id(b)
    &&& c.prg.len() == b[4]
    &&& c.chr.len() == b[5]
    &&& forall|i: int|
        0 <= i < b[4] ==> (#[trigger] c.prg@[i])@ == b.subrange(
            prg_offset(b) + i * PRG_BANK_SIZE,
            prg_offset(b) + i * PRG_BANK_SIZE + PRG_BANK_SIZE,
        )
    &&& forall|i: int|
        0 <= i < b[5] ==> (#[trigger] c.chr@[i])@ == b.subrange(
            chr_offset(b) + i * CHR_BANK_SIZE,
            chr_offset(b) + i * CHR_BANK_SIZE + CHR_BANK_SIZE,
        )
}

/// Copies `len` bytes of `b` from `start`.
fn copy_bank(b: &Vec<u8>, start: usize, len: usize) -> (r: Vec<u8>)
    requires
        start + len <= b.len(),
    ensures
        r@ == b@.subrange(start as int, start + len),
{
    let mut r: Vec<u8> = Vec::new();
    let mut i: usize = 0;
    while i < len
        invariant
            start + len <= b.len(),
            i <= len,
            r@ == b@.subrange(start as int, start + i),
        decreases len - i,
    {
        r.push(b[start + i]);
        i += 1;
        assert(r@ =~= b@.subrange(start as int, start + i));
    }
    r
}

impl Cartridge {
    /// Decodes an iNES image.
    pub fn new(buffer: Vec<u8>, file_path: String) -> (r: Result<Cartridge, DecodeError>)
        ensures
            match r {
                Ok(c) => decode_error(buffer@) is None && decoded_from(&c, buffer@, file_path@)
                    && c.wf(),
                Err(e) => decode_error(buffer@) == Some(e),
            },
    {
        if buffer.len() < 16 {
            return Err(DecodeError::Truncated);
        }
        if !(buffer[0] == 0x4e && buffer[1] == 0x45 && buffer[2] == 0x53 && buffer[3] == 0x1a) {
            return Err(DecodeError::BadSignature);
        }
        let flags6 = buffer[6];
        let flags7 = buffer[7];
        let prg_rom_size = buffer[4] as usize;
        let chr_rom_size = buffer[5] as usize;
        if prg_rom_size == 0 {
            return Err(DecodeError::NoPrgRom);
        }
        let trainer = flags6 & 4 != 0;
        let prg_start: usize = 16 + if trainer {
            512
        } else {
            0
        };
        let chr_start: usize = prg_start + prg_rom_size * PRG_BANK_SIZE;
        let end: usize = chr_start + chr_rom_size * CHR_BANK_SIZE;
        if buffer.len() < end {
            return Err(DecodeError::Truncated);
        }
        let mapper = (flags7 & 0xf0) | (flags6 >> 4);
        let mirror = if flags6 & 8 != 0 {
            Mirror::Four
        } else if flags6 & 1 != 0 {
            Mirror::Vertical
        } else {
            Mirror::Horizontal
        };
        let header = NesHeader {
            file_path,
            prg_rom_size,
            chr_rom_size,
            mirror,
            battery_backed_ram: flags6 & 2 != 0,
            trainer,
            ignore_mirror: flags6 & 8 != 0,
        };
        let ghost b = buffer@;
        let mut prg: Vec<Vec<u8>> = Vec::new();
        let mut i: usize = 0;
        while i < prg_rom_size
            invariant
                b == buffer@,
                prg_start == prg_offset(b),
                prg_rom_size == b[4],
                chr_start == prg_start + prg_rom_size * PRG_BANK_SIZE,
                chr_start + chr_rom_size * CHR_BANK_SIZE <= buffer.len(),
                i <= prg_rom_size,
                prg.len() == i,
                forall|j: int|
                    0 <= j < i ==> (#[trigger] prg@[j])@ == b.subrange(
                        prg_offset(b) + j * PRG_BANK_SIZE,
                        prg_offset(b) + j * PRG_BANK_SIZE + PRG_BANK_SIZE,
                    ),
            decreases prg_rom_size - i,
        {
            let start = prg_start + i * PRG_BANK_SIZE;
            prg.push(copy_bank(&buffer, start, PRG_BANK_SIZE));
            i += 1;
        }
        let mut chr: Vec<Vec<u8>> = Vec::new();
        let mut i: usize = 0;
        while i < chr_rom_size
            invariant
                b == buffer@,
                chr_start == chr_offset(b),
                chr_rom_size == b[5],
                chr_start + chr_rom_size * CHR_BANK_SIZE <= buffer.len(),
                i <= chr_rom_size,
                chr.len() == i,
                forall|j: int|
                    0 <= j < i ==> (#[trigger] chr@[j])@ == b.subrange(
                        chr_offset(b) + j * CHR_BANK_SIZE,
                        chr_offset(b) + j * CHR_BANK_SIZE + CHR_BANK_SIZE,
                    ),
            decreases chr_rom_size - i,
        {
            let start = chr_start + i * CHR_BANK_SIZE;
            chr.push(copy_bank(&buffer, start, CHR_BANK_SIZE));
            i += 1;
        }
        Ok(Cartridge { header, prg, chr, mapper })
    }
}

/// The board a cartridge plugs in with.
pub enum AnyMapper {
    Nrom(NROM),
    Mmc1(MMC1),
    Uxrom(UxROM),
    Cnrom(CNROM),
}

impl AnyMapper {
    pub open spec fn cart(&self) -> &Cartridge {
        match self {
            AnyMapper::Nrom(m) => &m.cart,
            AnyMapper::Mmc1(m) => &m.cart,
            AnyMapper::Uxrom(m) => &m.cart,
            AnyMapper::Cnrom(m) => &m.cart,
        }
    }

    /// The iNES mapper number of the board.
    pub open spec fn id(&self) -> u8 {
        match self {
            AnyMapper::Nrom(_) => 0,
            AnyMapper::Mmc1(_) => 1,
            AnyMapper::Uxrom(_) => 2,
            AnyMapper::Cnrom(_) => 3,
        }
    }
}

impl Mapper for AnyMapper {
    open spec fn wf(&self) -> bool {
        match self {
            AnyMapper::Nrom(m) => m.wf(),
            AnyMapper::Mmc1(m) => m.wf(),
            AnyMapper::Uxrom(m) => m.wf(),
            AnyMapper::Cnrom(m) => m.wf(),
        }
    }

    open spec fn spec_read(&self, address: int) -> u8 {
        match self {
            AnyMapper::Nrom(m) => m.spec_read(address),
            AnyMapper::Mmc1(m) => m.spec_read(address),
            AnyMapper::Uxrom(m) => m.spec_read(address),
            AnyMapper::Cnrom(m) => m.spec_read(address),
        }
    }

    open spec fn spec_written(&self, address: int, value: u8, after: &Self) -> bool {
        match (self, after) {
            (AnyMapper::Nrom(m), AnyMapper::Nrom(n)) => m.spec_written(address, value, n),
            (AnyMapper::Mmc1(m), AnyMapper::Mmc1(n)) => m.spec_written(address, value, n),
            (AnyMapper::Uxrom(m), AnyMapper::Uxrom(n)) => m.spec_written(address, value, n),
            (AnyMapper::Cnrom(m), AnyMapper::Cnrom(n)) => m.spec_written(address, value, n),
            _ => false,
        }
    }

    open spec fn spec_mirror(&self) -> Mirror {
        match self {
            AnyMapper::Nrom(m) => m.spec_mirror(),
            AnyMapper::Mmc1(m) => m.spec_mirror(),
            AnyMapper::Uxrom(m) => m.spec_mirror(),
            AnyMapper::Cnrom(m) => m.spec_mirror(),
        }
    }

    open spec fn spec_battery(&self) -> Option<Seq<u8>> {
        match self {
            AnyMapper::Nrom(m) => m.spec_battery(),
            AnyMapper::Mmc1(m) => m.spec_battery(),
            AnyMapper::Uxrom(m) => m.spec_battery(),
            AnyMapper::Cnrom(m) => m.spec_battery(),
        }
    }

    open spec fn spec_battery_loaded(&self, data: Seq<u8>, after: &Self) -> bool {
        match (self, after) {
            (AnyMapper::Nrom(m), AnyMapper::Nrom(n)) => m.spec_battery_loaded(data, n),
            (AnyMapper::Mmc1(m), AnyMapper::Mmc1(n)) => m.spec_battery_loaded(data, n),
            (AnyMapper::Uxrom(m), AnyMapper::Uxrom(n)) => m.spec_battery_loaded(data, n),
            (AnyMapper::Cnrom(m), AnyMapper::Cnrom(n)) => m.spec_battery_loaded(data, n),
            _ => false,
        }
    }

    fn read(&self, address: usize) -> (r: u8) {
        match self {
            AnyMapper::Nrom(m) => m.read(address),
            AnyMapper::Mmc1(m) => m.read(address),
            AnyMapper::Uxrom(m) => m.read(address),
            AnyMapper::Cnrom(m) => m.read(address),
        }
    }

    fn write(&mut self, address: usize, value: u8) {
        match self {
            AnyMapper::Nrom(m) => m.write(address, value),
            AnyMapper::Mmc1(m) => m.write(address, value),
            AnyMapper::Uxrom(m) => m.write(address, value),
            AnyMapper::Cnrom(m) => m.write(address, value),
        }
    }

    fn get_mirror(&self) -> (r: Mirror) {
        match self {
            AnyMapper::Nrom(m) => m.get_mirror(),
            AnyMapper::Mmc1(m) => m.get_mirror(),
            AnyMapper::Uxrom(m) => m.get_mirror(),
            AnyMapper::Cnrom(m) => m.get_mirror(),
        }
    }

    fn load_battery(&mut self, data: &Vec<u8>) {
        match self {
            AnyMapper::Nrom(m) => m.load_battery(data),
            AnyMapper::Mmc1(m) => m.load_battery(data),
            AnyMapper::Uxrom(m) => m.load_battery(data),
            AnyMapper::Cnrom(m) => m.load_battery(data),
        }
    }

    fn save_battery(&self) -> (r: Option<Vec<u8>>) {
        match self {
            AnyMapper::Nrom(m) => m.save_battery(),
            AnyMapper::Mmc1(m) => m.save_battery(),
            AnyMapper::Uxrom(m) => m.save_battery(),
            AnyMapper::Cnrom(m) => m.save_battery(),
        }
    }

    fn step(&mut self) {
        match self {
            AnyMapper::Nrom(m) => m.step(),
            AnyMapper::Mmc1(m) => m.step(),
            AnyMapper::Uxrom(m) => m.step(),
            AnyMapper::Cnrom(m) => m.step(),
        }
    }
}

/// Decodes an iNES image and builds the board its mapper number names.
pub fn get_mapper(buffer: Vec<u8>, file_path: String) -> (r: Result<AnyMapper, DecodeError>)
    ensures
        match r {
            Ok(m) => {
                &&& decode_error(buffer@) is None
                &&& m.id() == mapper_id(buffer@)
                &&& decoded_from(m.cart(), buffer@, file_path@)
                &&& m.wf()
            },
            Err(e) => if decode_error(buffer@) is Some {
                decode_error(buffer@) == Some(e)
            } else {
                mapper_id(buffer@) > 3 && e == DecodeError::UnsupportedMapper(mapper_id(buffer@))
            },
        },
{
    let cart = match Cartridge::new(buffer, file_path) {
        Ok(c) => c,
        Err(e) => return Err(e),
    };
    let id = cart.mapper;
    if id == 0 {
        Ok(AnyMapper::Nrom(NROM::new(cart)))
    } else if id == 1 {
        Ok(AnyMapper::Mmc1(MMC1::new(cart)))
    } else if id == 2 {
        Ok(AnyMapper::Uxrom(UxROM::new(cart)))
    } else if id == 3 {
        Ok(AnyMapper::Cnrom(CNROM::new(cart)))
    } else {
        Err(DecodeError::UnsupportedMapper(id))
    }
}

} // verus!
