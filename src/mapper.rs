pub use crate::cartridge::Mapper;
