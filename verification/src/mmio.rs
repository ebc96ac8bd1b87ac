//! The memory-mapped I/O block: models exactly one hardware register, the
//! write-only bios-disable latch at relative offset 0x50 within a 0x80-byte
//! window.

use vstd::prelude::*;

use crate::addr::Addr;
use crate::device::MemDevice;

verus! {

/// Memory device connecting memory mapped IO. All offsets other than 0x50
/// read as 0xFF and ignore writes (unimplemented register stubs, pulled
/// high as on the hardware).
#[derive(Clone, Debug)]
pub struct MemMappedIo {
    bios_enabled: bool,
}

impl MemMappedIo {
    /// Whether the bios overlay is still enabled, as a spec-level value.
    pub closed spec fn spec_bios_enabled(&self) -> bool {
        self.bios_enabled
    }

    /// Construct new memory-mapped IO manager. The bios starts enabled.
    pub fn new() -> (io: Self)
        ensures
            io.spec_bios_enabled(),
    {
        MemMappedIo { bios_enabled: true }
    }

    /// Returns true if bios is enabled.
    pub fn bios_enabled(&self) -> (r: bool)
        ensures
            r == self.spec_bios_enabled(),
    {
        self.bios_enabled
    }
}

impl Default for MemMappedIo {
    fn default() -> (io: Self)
        ensures
            io.spec_bios_enabled(),
    {
        Self::new()
    }
}

impl MemDevice for MemMappedIo {
    open spec fn inv(&self) -> bool {
        true
    }

    open spec fn addr_ok(&self, addr: Addr) -> bool {
        (addr.relative as int) < 0x80
    }

    open spec fn read_rel(&self, rel: int) -> u8 {
        if rel == 0x50 {
            if self.spec_bios_enabled() {
                1u8
            } else {
                0u8
            }
        } else {
            0xffu8
        }
    }

    /// The latch is one-way: a write with bit 0 set to offset 0x50 disables
    /// the bios, and nothing ever re-enables it.
    open spec fn write_rel(&self, rel: int, val: u8, post: &Self) -> bool {
        post.spec_bios_enabled() == (self.spec_bios_enabled() && !(rel == 0x50 && val & 1 != 0))
    }

    fn read(&self, addr: Addr) -> u8 {
        let rel = addr.relative();
        if rel == 0x50 {
            if self.bios_enabled {
                1
            } else {
                0
            }
        } else {
            0xff
        }
    }

    fn write(&mut self, addr: Addr, data: u8) {
        let rel = addr.relative();
        if rel == 0x50 {
            if data & 1 != 0 {
                self.bios_enabled = false;
            }
        }
    }
}

} // verus!
