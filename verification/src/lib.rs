//! Verified model of the addressable-memory subsystem of a Game Boy:
//! the byte-addressable memory space, the MBC1 bank-switching cartridge
//! controller, and the top-level address decoder that routes every CPU
//! memory access to the correct backing device.

pub mod addr;
pub mod bios;
pub mod cartridge;
pub mod device;
pub mod mmio;
pub mod mmu;

pub use addr::Addr;
pub use bios::BiosRom;
pub use bios::BiosSizeError;
pub use cartridge::Cartridge;
pub use cartridge::Mbc1Rom;
pub use device::MemDevice;
pub use device::NullRom;
pub use device::ReadOnly;
pub use mmio::MemMappedIo;
pub use mmu::GbMmu;
