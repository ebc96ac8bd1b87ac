//! The bank-switched cartridge controller (MBC1) and the closed choice
//! between "no cartridge" and an MBC1 cartridge.

use vstd::prelude::*;

use crate::addr::Addr;
use crate::device::MemDevice;
use crate::device::NullRom;

verus! {

/// Variant 1 of the system ROMs: multiplexes 128 fixed-size ROM banks and 4
/// RAM banks behind 4 shared hardware registers.
///
/// In the machine, the cartridge occupies two memory spaces, one before
/// video ram for the ROM portion and one after for the RAM. Here the split
/// is ignored and the two spaces are squished together over relative
/// addresses `0x0000..0xa000`; the enclosing decoder remaps as needed.
#[derive(Clone, Debug)]
pub struct Mbc1Rom {
    /// ROM banks loaded from the cartridge, 128 banks of 16 KiB. Banks 32,
    /// 64, and 96 are unreachable by the addressing algorithm but left in
    /// place for convenient bank-index arithmetic.
    rom_banks: Vec<Vec<u8>>,
    /// RAM banks, 4 banks of 8 KiB. If the cartridge has no ram these stay
    /// all zero.
    ram_banks: Vec<Vec<u8>>,
    /// Whether this cartridge type has external ram support. If not, ram
    /// cannot be enabled and ram mode does nothing.
    has_ram: bool,
    /// Whether ram is enabled for reading/writing. Otherwise writes are
    /// ignored and reads return 0.
    ram_enable: bool,
    /// Rom bank select: the low-order 5 bits of the rom bank, never 0.
    rom_bank: u8,
    /// A 2-bit register that selects either the ram bank or the high-order
    /// 2 bits of the rom bank, depending on the mode register.
    bank_set: u8,
    /// Whether the mode is ram-mode. If set, `bank_set` chooses between ram
    /// banks instead of rom bank-sets.
    ram_mode: bool,
}

impl Mbc1Rom {
    /// Whether this cartridge has external ram.
    pub closed spec fn spec_has_ram(&self) -> bool {
        self.has_ram
    }

    /// The ram-enable register.
    pub closed spec fn spec_ram_enable(&self) -> bool {
        self.ram_enable
    }

    /// The rom-bank-select register (low-order 5 bits of the rom bank).
    pub closed spec fn spec_rom_bank(&self) -> u8 {
        self.rom_bank
    }

    /// The shared 2-bit bank-set register.
    pub closed spec fn spec_bank_set(&self) -> u8 {
        self.bank_set
    }

    /// The mode register.
    pub closed spec fn spec_ram_mode(&self) -> bool {
        self.ram_mode
    }

    /// The ROM byte at `off` within bank `bank`.
    pub closed spec fn rom_byte(&self, bank: int, off: int) -> u8 {
        self.rom_banks@[bank]@[off]
    }

    /// The RAM byte at `off` within bank `bank`.
    pub closed spec fn ram_byte(&self, bank: int, off: int) -> u8 {
        self.ram_banks@[bank]@[off]
    }

    /// The backing storage has 128 ROM banks of 16 KiB and 4 RAM banks of
    /// 8 KiB.
    pub closed spec fn shape_ok(&self) -> bool {
        &&& self.rom_banks@.len() == 128
        &&& forall|b: int|
            0 <= b < 128 ==> (#[trigger] self.rom_banks@[b])@.len() == 0x4000
        &&& self.ram_banks@.len() == 4
        &&& forall|b: int|
            0 <= b < 4 ==> (#[trigger] self.ram_banks@[b])@.len() == 0x2000
    }

    /// The effective ROM bank: the bank-set register supplies the
    /// high-order 2 bits unless the controller is in ram mode, in which
    /// case they are forced to 0 (only banks 0-31 reachable).
    pub open spec fn spec_effective_rom_bank(&self) -> int {
        (if self.spec_ram_mode() {
            0int
        } else {
            self.spec_bank_set() as int * 32
        }) + self.spec_rom_bank() as int
    }

    /// The effective RAM bank: the bank-set register selects it in ram
    /// mode; otherwise access is forced to bank 0.
    pub open spec fn spec_effective_ram_bank(&self) -> int {
        if self.spec_ram_mode() {
            self.spec_bank_set() as int
        } else {
            0int
        }
    }

    /// The rom bank a write to the rom-bank-select range installs: the low
    /// 5 bits of the value, raised to 1 if they are 0.
    pub open spec fn select_rom_bank(val: u8) -> u8 {
        if val & 0x1f == 0 {
            1u8
        } else {
            val & 0x1f
        }
    }

    /// The ROM contents and the ram capability never change.
    pub open spec fn rom_same(&self, post: &Self) -> bool {
        &&& post.spec_has_ram() == self.spec_has_ram()
        &&& forall|b: int, o: int|
            0 <= b < 128 && 0 <= o < 0x4000 ==> #[trigger] post.rom_byte(b, o) == self.rom_byte(
                b,
                o,
            )
    }

    /// The RAM contents are unchanged.
    pub open spec fn ram_same(&self, post: &Self) -> bool {
        forall|b: int, o: int|
            0 <= b < 4 && 0 <= o < 0x2000 ==> #[trigger] post.ram_byte(b, o) == self.ram_byte(b, o)
    }

    /// Convenient access to the fixed rom bank.
    fn fixed_bank(&self) -> (bank: &Vec<u8>)
        requires
            self.inv(),
        ensures
            bank@.len() == 0x4000,
            forall|o: int| 0 <= o < 0x4000 ==> bank@[o] == self.rom_byte(0, o),
    {
        &self.rom_banks[0]
    }

    /// Get the currently selected rom bank. This is never bank 0 (nor 32,
    /// 64, or 96, since the low-order bits are never 0).
    fn rom_bank(&self) -> (bank: &Vec<u8>)
        requires
            self.inv(),
        ensures
            bank@.len() == 0x4000,
            forall|o: int|
                0 <= o < 0x4000 ==> bank@[o] == self.rom_byte(self.spec_effective_rom_bank(), o),
    {
        let low: usize = self.rom_bank as usize;
        // In RAM mode, bank_set is not used.
        let high: usize = if self.ram_mode {
            0
        } else {
            (self.bank_set as usize) * 32
        };
        &self.rom_banks[high + low]
    }

    /// Gets the currently selected ram bank. Does not check whether ram is
    /// enabled, but does check the mode register to see whether `bank_set`
    /// selects the bank.
    fn ram_bank(&self) -> (bank: &Vec<u8>)
        requires
            self.inv(),
        ensures
            bank@.len() == 0x2000,
            forall|o: int|
                0 <= o < 0x2000 ==> bank@[o] == self.ram_byte(self.spec_effective_ram_bank(), o),
    {
        // In ROM mode, only bank 0 is accessible.
        let idx: usize = if self.ram_mode {
            self.bank_set as usize
        } else {
            0
        };
        &self.ram_banks[idx]
    }

    /// Gets the currently selected ram bank for mutation. Does not check
    /// whether ram is enabled, but does check the mode register to see
    /// whether `bank_set` selects the bank.
    fn ram_bank_mut(&mut self) -> (bank: &mut Vec<u8>)
        requires
            old(self).inv(),
        ensures
            bank@.len() == 0x2000,
            forall|o: int|
                0 <= o < 0x2000 ==> bank@[o] == old(self).ram_byte(
                    old(self).spec_effective_ram_bank(),
                    o,
                ),
            final(self).spec_ram_enable() == old(self).spec_ram_enable(),
            final(self).spec_rom_bank() == old(self).spec_rom_bank(),
            final(self).spec_bank_set() == old(self).spec_bank_set(),
            final(self).spec_ram_mode() == old(self).spec_ram_mode(),
            old(self).rom_same(final(self)),
            final(bank)@.len() == 0x2000 ==> final(self).inv(),
            forall|b: int, o: int|
                0 <= b < 4 && 0 <= o < 0x2000 ==> #[trigger] final(self).ram_byte(b, o) == (if b
                    == old(self).spec_effective_ram_bank() {
                    final(bank)@[o]
                } else {
                    old(self).ram_byte(b, o)
                }),
    {
        // In ROM mode, only bank 0 is accessible.
        let idx: usize = if self.ram_mode {
            self.bank_set as usize
        } else {
            0
        };
        &mut self.ram_banks[idx]
    }

    /// Construct an MBC1 controller from a fully-populated cartridge image:
    /// 128 ROM banks of 16 KiB each, and the ram-capability flag. The RAM
    /// banks start zeroed and all registers are in their power-on state.
    pub fn new(rom_banks: Vec<Vec<u8>>, has_ram: bool) -> (cart: Self)
        requires
            rom_banks@.len() == 128,
            forall|b: int| 0 <= b < 128 ==> (#[trigger] rom_banks@[b])@.len() == 0x4000,
        ensures
            cart.inv(),
            cart.spec_has_ram() == has_ram,
            !cart.spec_ram_enable(),
            cart.spec_rom_bank() == 1,
            cart.spec_bank_set() == 0,
            !cart.spec_ram_mode(),
            forall|b: int, o: int|
                0 <= b < 128 && 0 <= o < 0x4000 ==> #[trigger] cart.rom_byte(b, o)
                    == rom_banks@[b]@[o],
            forall|b: int, o: int|
                0 <= b < 4 && 0 <= o < 0x2000 ==> #[trigger] cart.ram_byte(b, o) == 0,
    {
        let mut ram_banks: Vec<Vec<u8>> = Vec::new();
        while ram_banks.len() < 4
            invariant
                ram_banks@.len() <= 4,
                forall|b: int|
                    0 <= b < ram_banks@.len() ==> (#[trigger] ram_banks@[b])@.len() == 0x2000,
                forall|b: int, o: int|
                    0 <= b < ram_banks@.len() && 0 <= o < 0x2000 ==> ram_banks@[b]@[o] == 0,
            decreases 4 - ram_banks@.len(),
        {
            ram_banks.push(crate::device::zeroed_bytes(0x2000));
        }
        Mbc1Rom {
            rom_banks,
            ram_banks,
            has_ram,
            ram_enable: false,
            rom_bank: 1,
            bank_set: 0,
            ram_mode: false,
        }
    }
}

impl MemDevice for Mbc1Rom {
    open spec fn inv(&self) -> bool {
        &&& self.shape_ok()
        &&& 1 <= self.spec_rom_bank() <= 31
        &&& self.spec_bank_set() <= 3
        &&& !self.spec_has_ram() ==> !self.spec_ram_enable() && !self.spec_ram_mode()
    }

    open spec fn addr_ok(&self, addr: Addr) -> bool {
        (addr.relative as int) < 0xa000
    }

    open spec fn read_rel(&self, rel: int) -> u8 {
        if rel < 0x4000 {
            self.rom_byte(0, rel)
        } else if rel < 0x8000 {
            self.rom_byte(self.spec_effective_rom_bank(), rel - 0x4000)
        } else if self.spec_ram_enable() {
            self.ram_byte(self.spec_effective_ram_bank(), rel - 0x8000)
        } else {
            0
        }
    }

    open spec fn write_rel(&self, rel: int, val: u8, post: &Self) -> bool {
        &&& self.rom_same(post)
        &&& if rel < 0x2000 {
            &&& post.spec_ram_enable() == (self.spec_has_ram() && val & 0xf == 0xa)
            &&& post.spec_rom_bank() == self.spec_rom_bank()
            &&& post.spec_bank_set() == self.spec_bank_set()
            &&& post.spec_ram_mode() == self.spec_ram_mode()
            &&& self.ram_same(post)
        } else if rel < 0x4000 {
            &&& post.spec_ram_enable() == self.spec_ram_enable()
            &&& post.spec_rom_bank() == Self::select_rom_bank(val)
            &&& post.spec_bank_set() == self.spec_bank_set()
            &&& post.spec_ram_mode() == self.spec_ram_mode()
            &&& self.ram_same(post)
        } else if rel < 0x6000 {
            &&& post.spec_ram_enable() == self.spec_ram_enable()
            &&& post.spec_rom_bank() == self.spec_rom_bank()
            &&& post.spec_bank_set() == val & 0x3
            &&& post.spec_ram_mode() == self.spec_ram_mode()
            &&& self.ram_same(post)
        } else if rel < 0x8000 {
            &&& post.spec_ram_enable() == self.spec_ram_enable()
            &&& post.spec_rom_bank() == self.spec_rom_bank()
            &&& post.spec_bank_set() == self.spec_bank_set()
            &&& post.spec_ram_mode() == (self.spec_has_ram() && val & 1 != 0)
            &&& self.ram_same(post)
        } else {
            &&& post.spec_ram_enable() == self.spec_ram_enable()
            &&& post.spec_rom_bank() == self.spec_rom_bank()
            &&& post.spec_bank_set() == self.spec_bank_set()
            &&& post.spec_ram_mode() == self.spec_ram_mode()
            &&& if self.spec_has_ram() && self.spec_ram_enable() {
                forall|b: int, o: int|
                    0 <= b < 4 && 0 <= o < 0x2000 ==> #[trigger] post.ram_byte(b, o) == (if b
                        == self.spec_effective_ram_bank() && o == rel - 0x8000 {
                        val
                    } else {
                        self.ram_byte(b, o)
                    })
            } else {
                self.ram_same(post)
            }
        }
    }

    fn read(&self, addr: Addr) -> u8 {
        let rel = addr.relative();
        if rel < 0x4000 {
            self.fixed_bank().read(addr)
        } else if rel < 0x8000 {
            self.rom_bank().read(addr.offset_by(0x4000))
        } else if self.ram_enable {
            self.ram_bank().read(addr.offset_by(0x8000))
        } else {
            0
        }
    }

    fn write(&mut self, addr: Addr, data: u8) {
        let rel = addr.relative();
        if rel < 0x2000 {
            // Enable ram if the cartridge actually has ram and the lower
            // four bits of the value are 0xA.
            self.ram_enable = self.has_ram && (data & 0xf) == 0xa;
        } else if rel < 0x4000 {
            // Set the low-order bits of the rom-bank selection from the
            // lower 5 bits of the provided value, raising 0 to 1.
            let low = data & 0x1f;
            proof {
                assert(data & 0x1f <= 0x1f) by (bit_vector);
            }
            self.rom_bank = if low == 0 {
                1
            } else {
                low
            };
        } else if rel < 0x6000 {
            // Take the bottom 2 bits as the bank set; they are applied as
            // rom or ram bank bits only when used, based on the mode.
            let set = data & 0x3;
            proof {
                assert(data & 0x3 <= 0x3) by (bit_vector);
            }
            self.bank_set = set;
        } else if rel < 0x8000 {
            // Change between rom mode and ram mode, if the cartridge has
            // ram.
            self.ram_mode = self.has_ram && (data & 1) != 0;
        } else {
            if self.has_ram && self.ram_enable {
                // Write to ram, if ram exists and is enabled.
                let off: usize = addr.offset_by(0x8000).index();
                let bank = self.ram_bank_mut();
                bank[off] = data;
            }
        }
    }
}

/// Writing to the rom-bank-select range installs the low 5 bits of the
/// value as the rom bank, raised to 1 when they are 0: the effective rom
/// bank is never 0.
pub proof fn lemma_rom_bank_never_zero(cart: &Mbc1Rom, post: &Mbc1Rom, rel: int, val: u8)
    requires
        cart.inv(),
        0x2000 <= rel < 0x4000,
        cart.write_rel(rel, val, post),
    ensures
        post.spec_rom_bank() >= 1,
        val & 0x1f == 0 ==> post.spec_rom_bank() == 1,
        post.spec_effective_rom_bank() >= 1,
{
    assert(val & 0x1f == 0 || val & 0x1f >= 1) by (bit_vector);
}

/// Reading at the start of the switchable window returns byte 0 of the
/// effective rom bank's 16 KiB region.
pub proof fn lemma_switchable_window_start(cart: &Mbc1Rom)
    requires
        cart.inv(),
    ensures
        cart.read_rel(0x4000) == cart.rom_byte(cart.spec_effective_rom_bank(), 0),
{
}

/// Without ram capability, no write can enable ram or change the ram
/// contents, and reads of the ram window still return 0.
pub proof fn lemma_ram_gated_without_ram(cart: &Mbc1Rom, post: &Mbc1Rom, rel: int, val: u8)
    requires
        cart.inv(),
        !cart.spec_has_ram(),
        0 <= rel < 0xa000,
        cart.write_rel(rel, val, post),
    ensures
        !post.spec_ram_enable(),
        cart.ram_same(post),
        forall|r: int| 0x8000 <= r < 0xa000 ==> post.read_rel(r) == 0,
{
}

/// The shared 2-bit register is multiplexed by the mode: in ram mode it
/// selects the ram bank and the effective rom bank's high bits are forced
/// to 0; in rom mode it supplies the rom bank's high bits and ram access is
/// forced to bank 0.
pub proof fn lemma_mode_multiplexing(cart: &Mbc1Rom)
    requires
        cart.inv(),
    ensures
        cart.spec_ram_mode() ==> cart.spec_effective_rom_bank() == cart.spec_rom_bank()
            && cart.spec_effective_ram_bank() == cart.spec_bank_set(),
        !cart.spec_ram_mode() ==> cart.spec_effective_rom_bank() == cart.spec_bank_set() * 32
            + cart.spec_rom_bank() && cart.spec_effective_ram_bank() == 0,
{
}

/// Enum of different cartridge types.
#[derive(Clone, Debug)]
pub enum Cartridge {
    /// No cartridge. All reads return 0 and all writes are ignored.
    Empty,
    /// An [`Mbc1Rom`]. Boxed so that Cartridge does not always take up the
    /// full size of an Mbc1Rom even when no cartridge is present.
    Mbc1(Box<Mbc1Rom>),
}

impl Default for Cartridge {
    fn default() -> (c: Self)
        ensures
            c == Cartridge::Empty,
    {
        Cartridge::Empty
    }
}

impl MemDevice for Cartridge {
    open spec fn inv(&self) -> bool {
        match self {
            Cartridge::Empty => true,
            Cartridge::Mbc1(cart) => cart.inv(),
        }
    }

    open spec fn addr_ok(&self, addr: Addr) -> bool {
        match self {
            Cartridge::Empty => (addr.relative as int) < 0x10000,
            Cartridge::Mbc1(cart) => cart.addr_ok(addr),
        }
    }

    open spec fn read_rel(&self, rel: int) -> u8 {
        match self {
            Cartridge::Empty => 0,
            Cartridge::Mbc1(cart) => cart.read_rel(rel),
        }
    }

    open spec fn write_rel(&self, rel: int, val: u8, post: &Self) -> bool {
        match self {
            Cartridge::Empty => *post == *self,
            Cartridge::Mbc1(cart) => post matches Cartridge::Mbc1(pc) && cart.write_rel(
                rel,
                val,
                pc,
            ),
        }
    }

    fn read(&self, addr: Addr) -> u8 {
        match self {
            Cartridge::Empty => NullRom::<0x10000>.read(addr),
            Cartridge::Mbc1(cart) => cart.read(addr),
        }
    }

    fn write(&mut self, addr: Addr, data: u8) {
        match self {
            Cartridge::Empty => {
                let mut null = NullRom::<0x10000>;
                null.write(addr, data);
            },
            Cartridge::Mbc1(cart) => cart.write(addr, data),
        }
    }
}

} // verus!
