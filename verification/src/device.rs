//! The memory-device capability: the single polymorphic contract that every
//! backing store implements, plus the generic wrappers around it.

use vstd::prelude::*;

use crate::addr::Addr;

verus! {

/// Provides access to system memory.
///
/// Each implementation describes itself with four spec functions: its
/// internal invariant, the addresses it accepts (an access outside that set
/// is a wiring bug in the enclosing decoder, not a runtime condition), the
/// byte a read returns at each relative address, and the relation a write
/// establishes between the old and the new state.
pub trait MemDevice: Sized {
    /// Internal well-formedness of the device.
    spec fn inv(&self) -> bool;

    /// The addresses this device accepts.
    spec fn addr_ok(&self, addr: Addr) -> bool;

    /// The byte a read returns at a relative address.
    spec fn read_rel(&self, rel: int) -> u8;

    /// How a write of `val` at a relative address relates the device state
    /// before (`self`) to the state after (`post`).
    spec fn write_rel(&self, rel: int, val: u8, post: &Self) -> bool;

    /// Read the byte at the specified address.
    fn read(&self, addr: Addr) -> (r: u8)
        requires
            self.inv(),
            self.addr_ok(addr),
        ensures
            r == self.read_rel(addr.relative as int),
    ;

    /// Write the byte at the specified address.
    fn write(&mut self, addr: Addr, data: u8)
        requires
            old(self).inv(),
            old(self).addr_ok(addr),
        ensures
            final(self).inv(),
            old(self).write_rel(addr.relative as int, data, final(self)),
    ;
}

/// Wraps a memory device to make it read-only: reads delegate unchanged,
/// writes are range-checked against the inner device but otherwise dropped.
#[derive(Clone, Debug)]
pub struct ReadOnly<M>(M);

impl<M> ReadOnly<M> {
    /// The wrapped device, as a spec-level value.
    pub closed spec fn spec_inner(&self) -> M {
        self.0
    }

    /// Constructs a ReadOnly memory device that wraps the given underlying
    /// memory.
    pub fn new(mem: M) -> (r: Self)
        ensures
            r.spec_inner() == mem,
    {
        Self(mem)
    }

    /// Unwraps the inner memory device and returns it. This allows mutable
    /// access again.
    pub fn into_inner(self) -> (r: M)
        ensures
            r == self.spec_inner(),
    {
        self.0
    }
}

impl<M: MemDevice> MemDevice for ReadOnly<M> {
    open spec fn inv(&self) -> bool {
        self.spec_inner().inv()
    }

    open spec fn addr_ok(&self, addr: Addr) -> bool {
        self.spec_inner().addr_ok(addr)
    }

    open spec fn read_rel(&self, rel: int) -> u8 {
        self.spec_inner().read_rel(rel)
    }

    /// A write never changes a read-only device.
    open spec fn write_rel(&self, rel: int, val: u8, post: &Self) -> bool {
        *post == *self
    }

    fn read(&self, addr: Addr) -> u8 {
        self.0.read(addr)
    }

    fn write(&mut self, addr: Addr, _data: u8) {
        // Read the address so the wrapped device validates the address range;
        // the value itself is dropped.
        let _ = self.0.read(addr);
    }
}

/// A rom which does bounds checks, but contains no actual memory: reads
/// always return 0 and writes are discarded. Used for absent hardware.
#[derive(Clone, Debug)]
pub struct NullRom<const N: usize>;

impl<const N: usize> MemDevice for NullRom<N> {
    open spec fn inv(&self) -> bool {
        true
    }

    open spec fn addr_ok(&self, addr: Addr) -> bool {
        (addr.relative as int) < N as int
    }

    open spec fn read_rel(&self, rel: int) -> u8 {
        0
    }

    open spec fn write_rel(&self, rel: int, val: u8, post: &Self) -> bool {
        *post == *self
    }

    fn read(&self, _addr: Addr) -> u8 {
        0
    }

    fn write(&mut self, _addr: Addr, _data: u8) {
    }
}

/// A plain byte buffer is itself a memory device: reads and writes index
/// directly into the backing storage, and any index past the end is a
/// wiring bug ruled out by `addr_ok`.
impl MemDevice for Vec<u8> {
    open spec fn inv(&self) -> bool {
        true
    }

    open spec fn addr_ok(&self, addr: Addr) -> bool {
        (addr.relative as int) < self@.len()
    }

    open spec fn read_rel(&self, rel: int) -> u8 {
        self@[rel]
    }

    open spec fn write_rel(&self, rel: int, val: u8, post: &Self) -> bool {
        post@ == self@.update(rel, val)
    }

    fn read(&self, addr: Addr) -> u8 {
        let i: usize = addr.index();
        proof {
            // The accepted-address precondition bounds the index.
            assert(self.addr_ok(addr));
        }
        let r = self[i];
        proof {
            assert(r == self.read_rel(addr.relative as int));
        }
        r
    }

    fn write(&mut self, addr: Addr, data: u8) {
        let i: usize = addr.index();
        proof {
            // The accepted-address precondition bounds the index.
            assert(self.addr_ok(addr));
        }
        self[i] = data;
    }
}

/// A boxed device forwards both operations to the wrapped device unchanged.
/// This enables heterogeneous ownership of devices behind a single
/// capability type.
impl<D: MemDevice> MemDevice for Box<D> {
    open spec fn inv(&self) -> bool {
        (**self).inv()
    }

    open spec fn addr_ok(&self, addr: Addr) -> bool {
        (**self).addr_ok(addr)
    }

    open spec fn read_rel(&self, rel: int) -> u8 {
        (**self).read_rel(rel)
    }

    open spec fn write_rel(&self, rel: int, val: u8, post: &Self) -> bool {
        (**self).write_rel(rel, val, &**post)
    }

    fn read(&self, addr: Addr) -> u8 {
        (**self).read(addr)
    }

    fn write(&mut self, addr: Addr, data: u8) {
        (**self).write(addr, data)
    }
}

/// A freshly zeroed byte buffer of the given length, for plain RAM regions
/// and absent RAM banks.
pub(crate) fn zeroed_bytes(len: usize) -> (v: Vec<u8>)
    ensures
        v@.len() == len,
        forall|i: int| 0 <= i < len ==> v@[i] == 0,
{
    let mut v: Vec<u8> = Vec::new();
    while v.len() < len
        invariant
            v@.len() <= len,
            forall|i: int| 0 <= i < v@.len() ==> v@[i] == 0,
        decreases len - v@.len(),
    {
        v.push(0);
    }
    v
}

/// Writing any value through a read-only wrapper never changes what any
/// subsequent read at any address returns.
pub proof fn lemma_read_only_write_is_noop<M: MemDevice>(
    pre: &ReadOnly<M>,
    post: &ReadOnly<M>,
    rel: int,
    val: u8,
)
    requires
        pre.write_rel(rel, val, post),
    ensures
        forall|r: int| post.read_rel(r) == pre.read_rel(r),
{
}

} // verus!
