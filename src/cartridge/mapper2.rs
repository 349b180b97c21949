use vstd::prelude::*;

use crate::cartridge::{Cartridge, Mapper, Mirror};

verus! {

/// Mapper 2: a switchable 16 KiB PRG bank at $8000 and the last bank fixed
/// at $C000. Bank numbers wrap modulo the number of banks.
pub struct UxROM {
    pub cart: Cartridge,
    pub chr_ram: Vec<u8>,
    pub bank_select: u8,
}

impl UxROM {
    pub fn new(cart: Cartridge) -> (r: UxROM)
        requires
            cart.wf(),
        ensures
            r.wf(),
            r.cart == cart,
            r.bank_select == 0,
            forall|i: int| 0 <= i < 0x2000 ==> r.chr_ram@[i] == 0,
    {
        let chr_ram: Vec<u8> = vec![0u8; 0x2000];
        UxROM { cart, chr_ram, bank_select: 0 }
    }
}

impl Mapper for UxROM {
    open spec fn wf(&self) -> bool {
        self.cart.wf() && self.chr_ram.len() == 0x2000
    }

    open spec fn spec_read(&self, address: int) -> u8 {
        if 0 <= address <= 0x1fff {
            if self.cart.header.chr_rom_size > 0 {
                self.cart.chr_byte(0, address)
            } else {
                self.chr_ram@[address]
            }
        } else if 0x8000 <= address <= 0xbfff {
            self.cart.prg_byte(self.bank_select as int % self.cart.prg.len() as int, address % 0x4000)
        } else if 0xc000 <= address <= 0xffff {
            self.cart.prg_byte(self.cart.prg.len() - 1, address % 0x4000)
        } else {
            0
        }
    }

    open spec fn spec_written(&self, address: int, value: u8, after: &Self) -> bool {
        &&& after.cart == self.cart
        &&& after.chr_ram@ == if 0 <= address <= 0x1fff && self.cart.header.chr_rom_size == 0 {
            self.chr_ram@.update(address, value)
        } else {
            self.chr_ram@
        }
        &&& after.bank_select == if 0x8000 <= address <= 0xffff {
            value
        } else {
            self.bank_select
        }
    }

    open spec fn spec_mirror(&self) -> Mirror {
        self.cart.header.mirror
    }

    open spec fn spec_battery(&self) -> Option<Seq<u8>> {
        None
    }

    open spec fn spec_battery_loaded(&self, data: Seq<u8>, after: &Self) -> bool {
        *after == *self
    }

    fn read(&self, address: usize) -> (r: u8) {
        if address <= 0x1fff {
            if self.cart.header.chr_rom_size > 0 {
                self.cart.chr[0][address]
            } else {
                self.chr_ram[address]
            }
        } else if 0x8000 <= address && address <= 0xbfff {
            let bank = self.bank_select as usize % self.cart.prg.len();
            self.cart.prg[bank][address % 0x4000]
        } else if 0xc000 <= address {
            self.cart.prg[self.cart.prg.len() - 1][address % 0x4000]
        } else {
            0
        }
    }

    fn write(&mut self, address: usize, value: u8) {
        if address <= 0x1fff {
            if self.cart.header.chr_rom_size == 0 {
                self.chr_ram.set(address, value);
            }
        } else if 0x8000 <= address {
            self.bank_select = value;
        }
    }

    fn get_mirror(&self) -> (r: Mirror) {
        self.cart.header.mirror
    }

    fn load_battery(&mut self, data: &Vec<u8>) {
    }

    fn save_battery(&self) -> (r: Option<Vec<u8>>) {
        None
    }

    fn step(&mut self) {
    }
}

} // verus!
