use vstd::prelude::*;

use crate::cartridge::{Cartridge, Mapper, Mirror};

verus! {

/// MMC1's internal registers, loaded one bit at a time, five writes per register.
#[derive(Copy, Clone, Debug)]
pub struct Mmc1Registers {
    pub step: u8,
    pub shift_register: u8,
    pub control: u8,
    pub mirror: Mirror,
    pub prg_ram_enabled: bool,
    pub prg_mode: u8,
    pub prg_bank_select: u8,
    pub chr_low_bank: u8,
    pub chr_high_bank: u8,
    pub chr_mode: bool,
}

/// Mirroring selected by the low two bits of the control register.
pub open spec fn control_mirror(value: u8) -> Mirror {
    if value & 3 == 0 {
        Mirror::Single0
    } else if value & 3 == 1 {
        Mirror::Single1
    } else if value & 3 == 2 {
        Mirror::Vertical
    } else {
        Mirror::Horizontal
    }
}

impl Mmc1Registers {
    pub open spec fn wf(&self) -> bool {
        &&& self.step <= 4
        &&& self.prg_mode <= 3
        &&& self.step == 0 ==> self.shift_register == 0
    }

    pub open spec fn with_control(self, value: u8) -> Mmc1Registers {
        Mmc1Registers {
            control: value,
            mirror: control_mirror(value),
            prg_mode: (value >> 2) & 3,
            chr_mode: value & 0x10 != 0,
            ..self
        }
    }

    /// Registers after a write of `value` to `address` in $8000-$FFFF.
    pub open spec fn serial_write(self, address: int, value: u8) -> Mmc1Registers {
        if value & 0x80 != 0 {
            Mmc1Registers { shift_register: 0, step: 0, ..self }.with_control(self.control | 0x0c)
        } else {
            let sr = (self.shift_register >> 1) | ((value << 7) & 0x80);
            if self.step == 4 {
                let v = sr >> 3;
                let base = Mmc1Registers { step: 0, shift_register: 0, ..self };
                if address <= 0x9fff {
                    base.with_control(v)
                } else if address <= 0xbfff {
                    if self.chr_mode {
                        Mmc1Registers { chr_low_bank: v, ..base }
                    } else {
                        Mmc1Registers {
                            chr_low_bank: v & 0xfe,
                            chr_high_bank: ((v & 0xfe) + 1) as u8,
                            ..base
                        }
                    }
                } else if address <= 0xdfff {
                    if self.chr_mode {
                        Mmc1Registers { chr_high_bank: v, ..base }
                    } else {
                        base
                    }
                } else {
                    Mmc1Registers {
                        prg_bank_select: v & 0x0f,
                        prg_ram_enabled: v & 0x10 != 0,
                        ..base
                    }
                }
            } else {
                Mmc1Registers { shift_register: sr, step: (self.step + 1) as u8, ..self }
            }
        }
    }

    /// Sets the control register: mirroring, PRG mode (bits 2-3), CHR mode (bit 4).
    pub fn write_control_register(&mut self, value: u8)
        ensures
            *final(self) == old(self).with_control(value),
    {
        self.control = value;
        self.mirror = if value & 3 == 0 {
            Mirror::Single0
        } else if value & 3 == 1 {
            Mirror::Single1
        } else if value & 3 == 2 {
            Mirror::Vertical
        } else {
            Mirror::Horizontal
        };
        self.prg_mode = (value >> 2) & 3;
        self.chr_mode = value & 0x10 != 0;
    }

    /// One serial write of bit 0 of `value` at `address` ($8000-$FFFF).
    pub fn write_serial(&mut self, address: usize, value: u8)
        requires
            old(self).wf(),
        ensures
            *final(self) == old(self).serial_write(address as int, value),
            final(self).wf(),
    {
        if value & 0x80 != 0 {
            self.shift_register = 0;
            self.step = 0;
            let control = self.control | 0x0c;
            self.write_control_register(control);
            assert((control >> 2) & 3 <= 3) by (bit_vector);
        } else {
            self.shift_register = (self.shift_register >> 1) | ((value << 7) & 0x80);
            if self.step == 4 {
                let v = self.shift_register >> 3;
                self.step = 0;
                self.shift_register = 0;
                if address <= 0x9fff {
                    self.write_control_register(v);
                    assert((v >> 2) & 3 <= 3) by (bit_vector);
                } else if address <= 0xbfff {
                    if self.chr_mode {
                        self.chr_low_bank = v;
                    } else {
                        assert(v & 0xfe <= 0xfe) by (bit_vector);
                        self.chr_low_bank = v & 0xfe;
                        self.chr_high_bank = (v & 0xfe) + 1;
                    }
                } else if address <= 0xdfff {
                    if self.chr_mode {
                        self.chr_high_bank = v;
                    }
                } else {
                    self.prg_bank_select = v & 0x0f;
                    self.prg_ram_enabled = v & 0x10 != 0;
                }
            } else {
                self.step = self.step + 1;
            }
        }
    }
}

/// Mapper 1: serially loaded bank registers, switchable 16 or 32 KiB PRG
/// windows, 4 or 8 KiB CHR banks, 8 KiB PRG RAM at $6000-$7FFF (kept across
/// sessions when the cartridge has a battery) and mirroring under program
/// control. Bank numbers wrap modulo the number of banks; an image without
/// CHR ROM gets 8 KiB of CHR RAM.
pub struct MMC1 {
    pub cart: Cartridge,
    pub prg_ram_bank: Vec<u8>,
    pub chr_ram_bank: Vec<u8>,
    pub regs: Mmc1Registers,
}

impl MMC1 {
    /// A fresh board: PRG mode 3 (last bank fixed at $C000), everything else clear.
    pub fn new(cart: Cartridge) -> (r: MMC1)
        requires
            cart.wf(),
        ensures
            r.wf(),
            r.cart == cart,
            r.regs == (Mmc1Registers {
                step: 0,
                shift_register: 0,
                control: 0x0c,
                mirror: cart.header.mirror,
                prg_ram_enabled: false,
                prg_mode: 3,
                prg_bank_select: 0,
                chr_low_bank: 0,
                chr_high_bank: 0,
                chr_mode: false,
            }),
            forall|i: int| 0 <= i < 0x2000 ==> r.prg_ram_bank@[i] == 0 && r.chr_ram_bank@[i] == 0,
    {
        let mirror = cart.header.mirror;
        MMC1 {
            cart,
            prg_ram_bank: vec![0u8; 0x2000],
            chr_ram_bank: vec![0u8; 0x2000],
            regs: Mmc1Registers {
                step: 0,
                shift_register: 0,
                control: 0x0c,
                mirror,
                prg_ram_enabled: false,
                prg_mode: 3,
                prg_bank_select: 0,
                chr_low_bank: 0,
                chr_high_bank: 0,
                chr_mode: false,
            },
        }
    }

    /// PRG bank mapped at $8000-$BFFF.
    pub open spec fn low_prg_bank(&self) -> int {
        let n = self.cart.prg.len() as int;
        let sel = self.regs.prg_bank_select;
        if self.regs.prg_mode <= 1 {
            (sel & 0xfe) as int % n
        } else if self.regs.prg_mode == 2 {
            0
        } else {
            sel as int % n
        }
    }

    /// PRG bank mapped at $C000-$FFFF.
    pub open spec fn high_prg_bank(&self) -> int {
        let n = self.cart.prg.len() as int;
        let sel = self.regs.prg_bank_select;
        if self.regs.prg_mode <= 1 {
            ((sel & 0xfe) + 1) % n
        } else if self.regs.prg_mode == 2 {
            sel as int % n
        } else {
            n - 1
        }
    }

    pub open spec fn chr_rom_read(&self, address: int) -> u8 {
        let n = self.cart.chr.len() as int;
        if self.regs.chr_mode {
            let bank = if address < 0x1000 {
                self.regs.chr_low_bank
            } else {
                self.regs.chr_high_bank
            };
            self.cart.chr_byte((bank / 2) as int % n, (bank % 2) * 0x1000 + address % 0x1000)
        } else {
            self.cart.chr_byte(self.regs.chr_low_bank as int % n, address)
        }
    }
}

impl Mapper for MMC1 {
    open spec fn wf(&self) -> bool {
        &&& self.cart.wf()
        &&& self.prg_ram_bank.len() == 0x2000
        &&& self.chr_ram_bank.len() == 0x2000
        &&& self.regs.wf()
    }

    open spec fn spec_read(&self, address: int) -> u8 {
        if 0 <= address <= 0x1fff {
            if self.cart.header.chr_rom_size == 0 {
                self.chr_ram_bank@[address]
            } else {
                self.chr_rom_read(address)
            }
        } else if 0x6000 <= address <= 0x7fff {
            self.prg_ram_bank@[address % 0x2000]
        } else if 0x8000 <= address <= 0xbfff {
            self.cart.prg_byte(self.low_prg_bank(), address % 0x4000)
        } else if 0xc000 <= address <= 0xffff {
            self.cart.prg_byte(self.high_prg_bank(), address % 0x4000)
        } else {
            0
        }
    }

    open spec fn spec_written(&self, address: int, value: u8, after: &Self) -> bool {
        &&& after.cart == self.cart
        &&& after.chr_ram_bank@ == if 0 <= address <= 0x1fff && self.cart.header.chr_rom_size
            == 0 {
            self.chr_ram_bank@.update(address, value)
        } else {
            self.chr_ram_bank@
        }
        &&& after.prg_ram_bank@ == if 0x6000 <= address <= 0x7fff {
            self.prg_ram_bank@.update(address % 0x2000, value)
        } else {
            self.prg_ram_bank@
        }
        &&& after.regs == if 0x8000 <= address <= 0xffff {
            self.regs.serial_write(address, value)
        } else {
            self.regs
        }
    }

    open spec fn spec_mirror(&self) -> Mirror {
        self.regs.mirror
    }

    open spec fn spec_battery(&self) -> Option<Seq<u8>> {
        if self.cart.header.battery_backed_ram {
            Some(self.prg_ram_bank@)
        } else {
            None
        }
    }

    open spec fn spec_battery_loaded(&self, data: Seq<u8>, after: &Self) -> bool {
        &&& after.cart == self.cart
        &&& after.regs == self.regs
        &&& after.chr_ram_bank@ == self.chr_ram_bank@
        &&& after.prg_ram_bank@ == if self.cart.header.battery_backed_ram && data.len() == 0x2000 {
            data
        } else {
            self.prg_ram_bank@
        }
    }

    fn read(&self, address: usize) -> (r: u8) {
        if address <= 0x1fff {
            if self.cart.header.chr_rom_size == 0 {
                self.chr_ram_bank[address]
            } else {
                let n = self.cart.chr.len();
                if self.regs.chr_mode {
                    let bank = if address < 0x1000 {
                        self.regs.chr_low_bank
                    } else {
                        self.regs.chr_high_bank
                    };
                    let half: usize = if bank % 2 == 0 {
                        0
                    } else {
                        0x1000
                    };
                    self.cart.chr[(bank / 2) as usize % n][half + address % 0x1000]
                } else {
                    self.cart.chr[self.regs.chr_low_bank as usize % n][address]
                }
            }
        } else if 0x6000 <= address && address <= 0x7fff {
            self.prg_ram_bank[address % 0x2000]
        } else if 0x8000 <= address {
            let n = self.cart.prg.len();
            let sel = self.regs.prg_bank_select;
            let bank: usize = if address <= 0xbfff {
                if self.regs.prg_mode <= 1 {
                    (sel & 0xfe) as usize % n
                } else if self.regs.prg_mode == 2 {
                    0
                } else {
                    sel as usize % n
                }
            } else {
                if self.regs.prg_mode <= 1 {
                    ((sel & 0xfe) as usize + 1) % n
                } else if self.regs.prg_mode == 2 {
                    sel as usize % n
                } else {
                    n - 1
                }
            };
            self.cart.prg[bank][address % 0x4000]
        } else {
            0
        }
    }

    fn write(&mut self, address: usize, value: u8) {
        if address <= 0x1fff {
            if self.cart.header.chr_rom_size == 0 {
                self.chr_ram_bank.set(address, value);
            }
        } else if 0x6000 <= address && address <= 0x7fff {
            self.prg_ram_bank.set(address % 0x2000, value);
        } else if 0x8000 <= address {
            self.regs.write_serial(address, value);
        }
    }

    fn get_mirror(&self) -> (r: Mirror) {
        self.regs.mirror
    }

    fn load_battery(&mut self, data: &Vec<u8>) {
        if self.cart.header.battery_backed_ram && data.len() == 0x2000 {
            self.prg_ram_bank = data.clone();
        }
    }

    fn save_battery(&self) -> (r: Option<Vec<u8>>) {
        if self.cart.header.battery_backed_ram {
            Some(self.prg_ram_bank.clone())
        } else {
            None
        }
    }

    fn step(&mut self) {
    }
}

} // verus!
