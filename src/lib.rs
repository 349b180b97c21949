pub mod cartridge;
pub mod controller;
pub mod cpu;
pub mod mapper;
pub mod nes;
pub mod ppu;
