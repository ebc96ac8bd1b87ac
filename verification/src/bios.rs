//! The fixed 256-byte bios store, read-only once constructed, and the
//! construction-time size error.

use vstd::prelude::*;

use crate::addr::Addr;
use crate::device::MemDevice;
use crate::device::ReadOnly;

verus! {

/// Rom for the bios, which is swapped out once the machine has started.
/// Holds exactly 256 bytes behind a read-only wrapper.
#[derive(Clone, Debug)]
pub struct BiosRom(ReadOnly<Vec<u8>>);

/// Error when constructing a [`BiosRom`] from a buffer that is not exactly
/// 256 bytes. Carries the number of bytes actually given.
#[derive(Copy, Clone, Debug)]
pub struct BiosSizeError(pub usize);

impl BiosRom {
    /// The bios contents, as a spec-level sequence of bytes.
    pub closed spec fn bytes(&self) -> Seq<u8> {
        self.0.spec_inner()@
    }

    /// A well-formed bios holds exactly 256 bytes.
    pub open spec fn inv_bios(&self) -> bool {
        self.bytes().len() == 0x100
    }

    /// Construct a `BiosRom` from an array of 256 bytes. Does not validate
    /// the contents.
    pub fn new(data: [u8; 0x100]) -> (r: Self)
        ensures
            r.bytes() == data@,
            r.inv_bios(),
    {
        Self(ReadOnly::new(vstd::slice::slice_to_vec(data.as_slice())))
    }

    /// Constructs a `BiosRom` from a slice of contained bytes. The slice
    /// must be exactly 256 bytes; no other validation of the contents is
    /// performed. A slice of any other length is rejected with a
    /// [`BiosSizeError`] reporting that length.
    pub fn try_from_slice(data: &[u8]) -> (r: Result<Self, BiosSizeError>)
        ensures
            match r {
                Ok(b) => data@.len() == 0x100 && b.bytes() == data@ && b.inv_bios(),
                Err(e) => data@.len() != 0x100 && e.0 == data@.len(),
            },
    {
        if data.len() != 0x100 {
            Err(BiosSizeError(data.len()))
        } else {
            Ok(Self(ReadOnly::new(vstd::slice::slice_to_vec(data))))
        }
    }
}

impl Default for BiosRom {
    /// An all-zero bios image.
    fn default() -> (r: Self)
        ensures
            r.inv_bios(),
            forall|i: int| 0 <= i < 0x100 ==> r.bytes()[i] == 0,
    {
        let mut data: Vec<u8> = Vec::new();
        while data.len() < 0x100
            invariant
                data@.len() <= 0x100,
                forall|i: int| 0 <= i < data@.len() ==> data@[i] == 0,
            decreases 0x100 - data@.len(),
        {
            data.push(0);
        }
        Self(ReadOnly::new(data))
    }
}

impl MemDevice for BiosRom {
    open spec fn inv(&self) -> bool {
        self.inv_bios()
    }

    open spec fn addr_ok(&self, addr: Addr) -> bool {
        (addr.relative as int) < 0x100
    }

    open spec fn read_rel(&self, rel: int) -> u8 {
        self.bytes()[rel]
    }

    /// The bios is read-only: a write validates the range and is dropped.
    open spec fn write_rel(&self, rel: int, val: u8, post: &Self) -> bool {
        *post == *self
    }

    fn read(&self, addr: Addr) -> u8 {
        self.0.read(addr)
    }

    fn write(&mut self, addr: Addr, data: u8) {
        self.0.write(addr, data)
    }
}

} // verus!
