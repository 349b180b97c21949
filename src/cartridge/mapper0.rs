use vstd::prelude::*;

use crate::cartridge::{Cartridge, Mapper, Mirror};

verus! {

/// Mapper 0: fixed 32 KiB PRG window (a 16 KiB image appears twice), 8 KiB CHR
/// ROM or, without it, 8 KiB CHR RAM.
pub struct NROM {
    pub cart: Cartridge,
    pub chr_ram: Vec<u8>,
}

impl NROM {
    pub fn new(cart: Cartridge) -> (r: NROM)
        requires
            cart.wf(),
        ensures
            r.wf(),
            r.cart == cart,
            forall|i: int| 0 <= i < 0x2000 ==> r.chr_ram@[i] == 0,
    {
        let chr_ram: Vec<u8> = vec![0u8; 0x2000];
        NROM { cart, chr_ram }
    }
}

impl Mapper for NROM {
    open spec fn wf(&self) -> bool {
        self.cart.wf() && self.chr_ram.len() == 0x2000
    }

    open spec fn spec_read(&self, address: int) -> u8 {
        if 0 <= address <= 0x1fff {
            if self.cart.header.chr_rom_size > 0 {
                self.cart.chr_byte(0, address)
            } else {
                self.chr_ram@[address]
            }
        } else if 0x8000 <= address <= 0xbfff {
            self.cart.prg_byte(0, address % 0x4000)
        } else if 0xc000 <= address <= 0xffff {
            self.cart.prg_byte(self.cart.prg.len() - 1, address % 0x4000)
        } else {
            0
        }
    }

    open spec fn spec_written(&self, address: int, value: u8, after: &Self) -> bool {
        &&& after.cart == self.cart
        &&& after.chr_ram@ == if 0 <= address <= 0x1fff && self.cart.header.chr_rom_size == 0 {
            self.chr_ram@.update(address, value)
        } else {
            self.chr_ram@
        }
    }

    open spec fn spec_mirror(&self) -> Mirror {
        self.cart.header.mirror
    }

    open spec fn spec_battery(&self) -> Option<Seq<u8>> {
        None
    }

    open spec fn spec_battery_loaded(&self, data: Seq<u8>, after: &Self) -> bool {
        *after == *self
    }

    fn read(&self, address: usize) -> (r: u8) {
        if address <= 0x1fff {
            if self.cart.header.chr_rom_size > 0 {
                self.cart.chr[0][address]
            } else {
                self.chr_ram[address]
            }
        } else if 0x8000 <= address && address <= 0xbfff {
            self.cart.prg[0][address % 0x4000]
        } else if 0xc000 <= address {
            self.cart.prg[self.cart.prg.len() - 1][address % 0x4000]
        } else {
            0
        }
    }

    fn write(&mut self, address: usize, value: u8) {
        if address <= 0x1fff && self.cart.header.chr_rom_size == 0 {
            self.chr_ram.set(address, value);
        }
    }

    fn get_mirror(&self) -> (r: Mirror) {
        self.cart.header.mirror
    }

    fn load_battery(&mut self, data: &Vec<u8>) {
    }

    fn save_battery(&self) -> (r: Option<Vec<u8>>) {
        None
    }

    fn step(&mut self) {
    }
}

/// NROM's two PRG windows: $8000-$BFFF shows bank 0 and $C000-$FFFF the
/// last bank, each repeating every 16 KiB.
pub proof fn lemma_nrom_windows(m: &NROM, offset: int)
    requires
        0 <= offset < 0x4000,
    ensures
        m.spec_read(0x8000 + offset) == m.cart.prg_byte(0, offset % 0x4000),
        m.spec_read(0xc000 + offset) == m.cart.prg_byte(m.cart.prg.len() - 1, offset % 0x4000),
{
}

} // verus!
