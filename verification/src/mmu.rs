//! The top-level address decoder: owns the bios, the cartridge, the plain
//! RAM regions and the I/O block, and routes every CPU access over the full
//! 16-bit address space to the correct backing device.

use vstd::prelude::*;

use crate::addr::Addr;
use crate::bios::BiosRom;
use crate::cartridge::Cartridge;
use crate::device::MemDevice;
use crate::mmio::MemMappedIo;

verus! {

/// Memory device which configures the standard memory mapping of the
/// machine: bios overlay at `0x0000..0x0100` while enabled, cartridge rom,
/// video ram, cartridge ram, working ram with its mirror, the sprite table,
/// memory-mapped IO, and high ram.
#[derive(Clone, Debug)]
pub struct GbMmu {
    /// The bios. Mapped to 0x0000..0x0100 while bios is enabled.
    bios: BiosRom,
    /// The inserted cartridge. Mapped to 0x0000..0x8000 (rom) and
    /// 0xa000..0xc000 (ram).
    cart: Cartridge,
    /// Video ram. Mapped to 0x8000..0xa000.
    vram: Vec<u8>,
    /// Working ram. Mapped to 0xc000..0xe000 and mirrored at 0xe000..0xfe00.
    wram: Vec<u8>,
    /// Sprite info. Mapped to 0xfe00..0xfea0.
    oam: Vec<u8>,
    /// Memory mapped IO. Mapped to 0xff00..0xff80.
    io: MemMappedIo,
    /// High ram, primarily used for software-hardware interaction. Mapped
    /// to 0xff80..0xffff.
    zram: Vec<u8>,
}

impl GbMmu {
    /// The bios store, as a spec-level value.
    pub closed spec fn spec_bios(&self) -> BiosRom {
        self.bios
    }

    /// The cartridge, as a spec-level value.
    pub closed spec fn spec_cart(&self) -> Cartridge {
        self.cart
    }

    /// The I/O block, as a spec-level value.
    pub closed spec fn spec_io(&self) -> MemMappedIo {
        self.io
    }

    /// The video ram contents.
    pub closed spec fn vram_bytes(&self) -> Seq<u8> {
        self.vram@
    }

    /// The working ram contents.
    pub closed spec fn wram_bytes(&self) -> Seq<u8> {
        self.wram@
    }

    /// The sprite table contents.
    pub closed spec fn oam_bytes(&self) -> Seq<u8> {
        self.oam@
    }

    /// The high ram contents.
    pub closed spec fn zram_bytes(&self) -> Seq<u8> {
        self.zram@
    }

    /// Everything but the cartridge is unchanged.
    pub open spec fn frame_except_cart(&self, post: &Self) -> bool {
        &&& post.spec_bios() == self.spec_bios()
        &&& post.vram_bytes() == self.vram_bytes()
        &&& post.wram_bytes() == self.wram_bytes()
        &&& post.oam_bytes() == self.oam_bytes()
        &&& post.spec_io() == self.spec_io()
        &&& post.zram_bytes() == self.zram_bytes()
    }

    /// Everything but the video ram is unchanged.
    pub open spec fn frame_except_vram(&self, post: &Self) -> bool {
        &&& post.spec_bios() == self.spec_bios()
        &&& post.spec_cart() == self.spec_cart()
        &&& post.wram_bytes() == self.wram_bytes()
        &&& post.oam_bytes() == self.oam_bytes()
        &&& post.spec_io() == self.spec_io()
        &&& post.zram_bytes() == self.zram_bytes()
    }

    /// Everything but the working ram is unchanged.
    pub open spec fn frame_except_wram(&self, post: &Self) -> bool {
        &&& post.spec_bios() == self.spec_bios()
        &&& post.spec_cart() == self.spec_cart()
        &&& post.vram_bytes() == self.vram_bytes()
        &&& post.oam_bytes() == self.oam_bytes()
        &&& post.spec_io() == self.spec_io()
        &&& post.zram_bytes() == self.zram_bytes()
    }

    /// Everything but the sprite table is unchanged.
    pub open spec fn frame_except_oam(&self, post: &Self) -> bool {
        &&& post.spec_bios() == self.spec_bios()
        &&& post.spec_cart() == self.spec_cart()
        &&& post.vram_bytes() == self.vram_bytes()
        &&& post.wram_bytes() == self.wram_bytes()
        &&& post.spec_io() == self.spec_io()
        &&& post.zram_bytes() == self.zram_bytes()
    }

    /// Everything but the I/O block is unchanged.
    pub open spec fn frame_except_io(&self, post: &Self) -> bool {
        &&& post.spec_bios() == self.spec_bios()
        &&& post.spec_cart() == self.spec_cart()
        &&& post.vram_bytes() == self.vram_bytes()
        &&& post.wram_bytes() == self.wram_bytes()
        &&& post.oam_bytes() == self.oam_bytes()
        &&& post.zram_bytes() == self.zram_bytes()
    }

    /// Everything but the high ram is unchanged.
    pub open spec fn frame_except_zram(&self, post: &Self) -> bool {
        &&& post.spec_bios() == self.spec_bios()
        &&& post.spec_cart() == self.spec_cart()
        &&& post.vram_bytes() == self.vram_bytes()
        &&& post.wram_bytes() == self.wram_bytes()
        &&& post.oam_bytes() == self.oam_bytes()
        &&& post.spec_io() == self.spec_io()
    }

    /// Construct a new MMU with the given bios and cartridge. All ram
    /// regions start zeroed and the bios overlay starts enabled.
    pub fn new(bios: BiosRom, cart: Cartridge) -> (mmu: GbMmu)
        requires
            bios.inv(),
            cart.inv(),
        ensures
            mmu.inv(),
            mmu.spec_bios() == bios,
            mmu.spec_cart() == cart,
            mmu.spec_io().spec_bios_enabled(),
            forall|i: int| 0 <= i < 0x2000 ==> mmu.vram_bytes()[i] == 0,
            forall|i: int| 0 <= i < 0x2000 ==> mmu.wram_bytes()[i] == 0,
            forall|i: int| 0 <= i < 160 ==> mmu.oam_bytes()[i] == 0,
            forall|i: int| 0 <= i < 127 ==> mmu.zram_bytes()[i] == 0,
    {
        GbMmu {
            bios,
            cart,
            vram: crate::device::zeroed_bytes(0x2000),
            wram: crate::device::zeroed_bytes(0x2000),
            oam: crate::device::zeroed_bytes(160),
            io: MemMappedIo::new(),
            zram: crate::device::zeroed_bytes(127),
        }
    }
}

/// Totality of the dispatch table: every fresh, unoffset address over the
/// full 16-bit space is accepted by the decoder, so `read` and `write` are
/// defined for all of it.
pub proof fn lemma_decoder_total(mmu: &GbMmu, addr: Addr)
    requires
        addr.relative == addr.raw,
    ensures
        mmu.addr_ok(addr),
{
}

/// While the bios overlay is enabled, reads of 0x0000..0x0100 return bios
/// content; once it is disabled they return cartridge content instead.
pub proof fn lemma_bios_overlay(mmu: &GbMmu, rel: int)
    requires
        mmu.inv(),
        0 <= rel < 0x100,
    ensures
        mmu.spec_io().spec_bios_enabled() ==> mmu.read_rel(rel) == mmu.spec_bios().bytes()[rel],
        !mmu.spec_io().spec_bios_enabled() ==> mmu.read_rel(rel) == mmu.spec_cart().read_rel(rel),
{
}

/// Writing a value with bit 0 set to raw address 0xff50 disables the bios
/// overlay.
pub proof fn lemma_bios_disable(mmu: &GbMmu, post: &GbMmu, val: u8)
    requires
        mmu.inv(),
        val & 1 != 0,
        mmu.write_rel(0xff50, val, post),
    ensures
        !post.spec_io().spec_bios_enabled(),
{
}

/// The bios latch is one-way: once the bios is disabled, no write to any
/// address re-enables it.
pub proof fn lemma_bios_latch_one_way(mmu: &GbMmu, post: &GbMmu, rel: int, val: u8)
    requires
        mmu.inv(),
        !mmu.spec_io().spec_bios_enabled(),
        0 <= rel < 0x10000,
        mmu.write_rel(rel, val, post),
    ensures
        !post.spec_io().spec_bios_enabled(),
{
}

/// The working ram mirror: reads of 0xe000..0xfe00 see the same bytes as
/// reads of 0xc000..0xde00.
pub proof fn lemma_wram_mirror_read(mmu: &GbMmu, off: int)
    requires
        mmu.inv(),
        0 <= off < 0x1e00,
    ensures
        mmu.read_rel(0xc000 + off) == mmu.read_rel(0xe000 + off),
{
}

/// A write through either working-ram window lands in the same backing
/// byte: writing at `0xc000 + off` then reading `0xe000 + off` returns the
/// written byte, and vice versa.
pub proof fn lemma_wram_mirror_write(mmu: &GbMmu, post: &GbMmu, off: int, val: u8)
    requires
        mmu.inv(),
        0 <= off < 0x1e00,
    ensures
        mmu.write_rel(0xc000 + off, val, post) ==> post.read_rel(0xe000 + off) == val,
        mmu.write_rel(0xe000 + off, val, post) ==> post.read_rel(0xc000 + off) == val,
{
}

impl Default for GbMmu {
    /// An MMU with an all-zero bios and no cartridge.
    fn default() -> (mmu: Self)
        ensures
            mmu.inv(),
            mmu.spec_io().spec_bios_enabled(),
            mmu.spec_cart() == Cartridge::Empty,
    {
        Self::new(BiosRom::default(), Cartridge::default())
    }
}

impl MemDevice for GbMmu {
    open spec fn inv(&self) -> bool {
        &&& self.spec_bios().inv()
        &&& self.spec_cart().inv()
        &&& self.vram_bytes().len() == 0x2000
        &&& self.wram_bytes().len() == 0x2000
        &&& self.oam_bytes().len() == 160
        &&& self.zram_bytes().len() == 127
    }

    /// This device must only ever be invoked with a fresh, unoffset
    /// address: any offsetting indicates the address was incorrectly routed
    /// through a sub-device already.
    open spec fn addr_ok(&self, addr: Addr) -> bool {
        addr.relative == addr.raw
    }

    open spec fn read_rel(&self, rel: int) -> u8 {
        if rel < 0x100 && self.spec_io().spec_bios_enabled() {
            self.spec_bios().read_rel(rel)
        } else if rel < 0x8000 {
            self.spec_cart().read_rel(rel)
        } else if rel < 0xa000 {
            self.vram_bytes()[rel - 0x8000]
        } else if rel < 0xc000 {
            self.spec_cart().read_rel(rel - 0x2000)
        } else if rel < 0xe000 {
            self.wram_bytes()[rel - 0xc000]
        } else if rel < 0xfe00 {
            self.wram_bytes()[rel - 0xe000]
        } else if rel < 0xfea0 {
            self.oam_bytes()[rel - 0xfe00]
        } else if rel < 0xff00 {
            0
        } else if rel < 0xff80 {
            self.spec_io().read_rel(rel - 0xff00)
        } else if rel < 0xffff {
            self.zram_bytes()[rel - 0xff80]
        } else {
            0
        }
    }

    open spec fn write_rel(&self, rel: int, val: u8, post: &Self) -> bool {
        if rel < 0x100 && self.spec_io().spec_bios_enabled() {
            *post == *self
        } else if rel < 0x8000 {
            self.frame_except_cart(post) && self.spec_cart().write_rel(
                rel,
                val,
                &post.spec_cart(),
            )
        } else if rel < 0xa000 {
            self.frame_except_vram(post) && post.vram_bytes() == self.vram_bytes().update(
                rel - 0x8000,
                val,
            )
        } else if rel < 0xc000 {
            self.frame_except_cart(post) && self.spec_cart().write_rel(
                rel - 0x2000,
                val,
                &post.spec_cart(),
            )
        } else if rel < 0xe000 {
            self.frame_except_wram(post) && post.wram_bytes() == self.wram_bytes().update(
                rel - 0xc000,
                val,
            )
        } else if rel < 0xfe00 {
            self.frame_except_wram(post) && post.wram_bytes() == self.wram_bytes().update(
                rel - 0xe000,
                val,
            )
        } else if rel < 0xfea0 {
            self.frame_except_oam(post) && post.oam_bytes() == self.oam_bytes().update(
                rel - 0xfe00,
                val,
            )
        } else if rel < 0xff00 {
            *post == *self
        } else if rel < 0xff80 {
            self.frame_except_io(post) && self.spec_io().write_rel(
                rel - 0xff00,
                val,
                &post.spec_io(),
            )
        } else if rel < 0xffff {
            self.frame_except_zram(post) && post.zram_bytes() == self.zram_bytes().update(
                rel - 0xff80,
                val,
            )
        } else {
            *post == *self
        }
    }

    fn read(&self, addr: Addr) -> u8 {
        let rel = addr.relative();
        if rel < 0x100 && self.io.bios_enabled() {
            self.bios.read(addr)
        } else if rel < 0x8000 {
            self.cart.read(addr)
        } else if rel < 0xa000 {
            self.vram.read(addr.offset_by(0x8000))
        } else if rel < 0xc000 {
            // Cartridge ram starts right after cartridge rom, so the offset
            // used here is the size of vram: the address is shifted only by
            // the amount skipped to splice in the vram.
            self.cart.read(addr.offset_by(0x2000))
        } else if rel < 0xe000 {
            self.wram.read(addr.offset_by(0xc000))
        } else if rel < 0xfe00 {
            self.wram.read(addr.offset_by(0xe000))
        } else if rel < 0xfea0 {
            self.oam.read(addr.offset_by(0xfe00))
        } else if rel < 0xff00 {
            // Unmapped portion above the sprite table always reads 0.
            0
        } else if rel < 0xff80 {
            self.io.read(addr.offset_by(0xff00))
        } else if rel < 0xffff {
            self.zram.read(addr.offset_by(0xff80))
        } else {
            // The last byte is unmapped.
            0
        }
    }

    fn write(&mut self, addr: Addr, data: u8) {
        let rel = addr.relative();
        if rel < 0x100 && self.io.bios_enabled() {
            // The bios is read-only: the write is range-checked and dropped.
            self.bios.write(addr, data);
        } else if rel < 0x8000 {
            self.cart.write(addr, data);
        } else if rel < 0xa000 {
            self.vram.write(addr.offset_by(0x8000), data);
        } else if rel < 0xc000 {
            self.cart.write(addr.offset_by(0x2000), data);
        } else if rel < 0xe000 {
            self.wram.write(addr.offset_by(0xc000), data);
        } else if rel < 0xfe00 {
            self.wram.write(addr.offset_by(0xe000), data);
        } else if rel < 0xfea0 {
            self.oam.write(addr.offset_by(0xfe00), data);
        } else if rel < 0xff00 {
            // Unmapped: the write is discarded.
        } else if rel < 0xff80 {
            self.io.write(addr.offset_by(0xff00), data);
        } else if rel < 0xffff {
            self.zram.write(addr.offset_by(0xff80), data);
        } else {
            // The last byte is unmapped: the write is discarded.
        }
    }
}

} // verus!
