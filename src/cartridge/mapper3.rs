use vstd::prelude::*;

use crate::cartridge::{Cartridge, Mapper, Mirror};

verus! {

/// Mapper 3: fixed PRG like NROM, and an 8 KiB CHR bank chosen by the low two
/// bits of any write to $8000-$FFFF. Bank numbers wrap modulo the number of
/// CHR banks; an image without CHR ROM gets 8 KiB of CHR RAM.
pub struct CNROM {
    pub cart: Cartridge,
    pub chr_ram: Vec<u8>,
    pub bank_select: u8,
}

impl CNROM {
    pub fn new(cart: Cartridge) -> (r: CNROM)
        requires
            cart.wf(),
        ensures
            r.wf(),
            r.cart == cart,
            r.bank_select == 0,
            forall|i: int| 0 <= i < 0x2000 ==> r.chr_ram@[i] == 0,
    {
        let chr_ram: Vec<u8> = vec![0u8; 0x2000];
        CNROM { cart, chr_ram, bank_select: 0 }
    }
}

impl Mapper for CNROM {
    open spec fn wf(&self) -> bool {
        self.cart.wf() && self.chr_ram.len() == 0x2000
    }

    open spec fn spec_read(&self, address: int) -> u8 {
        if 0 <= address <= 0x1fff {
            if self.cart.header.chr_rom_size > 0 {
                self.cart.chr_byte(self.bank_select as int % self.cart.chr.len() as int, address)
            } else {
                self.chr_ram@[address]
            }
        } else if 0x8000 <= address <= 0xbfff {
            self.cart.prg_byte(0, address % 0x4000)
        } else if 0xc000 <= address <= 0xffff {
            self.cart.prg_byte(self.cart.prg.len() - 1, address % 0x4000)
        } else {
            0
        }
    }

    open spec fn spec_written(&self, address: int, value: u8, after: &Self) -> bool {
        &&& after.cart == self.cart
        &&& after.chr_ram@ == if 0 <= address <= 0x1fff && self.cart.header.chr_rom_size == 0 {
            self.chr_ram@.update(address, value)
        } else {
            self.chr_ram@
        }
        &&& after.bank_select == if 0x8000 <= address <= 0xffff {
            value & 3
        } else {
            self.bank_select
        }
    }

    open spec fn spec_mirror(&self) -> Mirror {
        self.cart.header.mirror
    }

    open spec fn spec_battery(&self) -> Option<Seq<u8>> {
        None
    }

    open spec fn spec_battery_loaded(&self, data: Seq<u8>, after: &Self) -> bool {
        *after == *self
    }

    fn read(&self, address: usize) -> (r: u8) {
        if address <= 0x1fff {
            if self.cart.header.chr_rom_size > 0 {
                let bank = self.bank_select as usize % self.cart.chr.len();
                self.cart.chr[bank][address]
            } else {
                self.chr_ram[address]
            }
        } else if 0x8000 <= address && address <= 0xbfff {
            self.cart.prg[0][address % 0x4000]
        } else if 0xc000 <= address {
            self.cart.prg[self.cart.prg.len() - 1][address % 0x4000]
        } else {
            0
        }
    }

    fn write(&mut self, address: usize, value: u8) {
        if address <= 0x1fff {
            if self.cart.header.chr_rom_size == 0 {
                self.chr_ram.set(address, value);
            }
        } else if 0x8000 <= address {
            self.bank_select = value & 3;
        }
    }

    fn get_mirror(&self) -> (r: Mirror) {
        self.cart.header.mirror
    }

    fn load_battery(&mut self, data: &Vec<u8>) {
    }

    fn save_battery(&self) -> (r: Option<Vec<u8>>) {
        None
    }

    fn step(&mut self) {
    }
}

} // verus!
