//! The non-volatile storage abstraction and the serialization layer: a
//! byte-addressed `Storage` capability, an in-memory model of it, and the
//! `Storable` contract mapping counters to the fixed on-device byte layout
//! (little-endian 16-bit values, counters A,B,C,D at consecutive offsets).

use vstd::prelude::*;

use crate::counter::{Counter, Counters, CounterSelection};
use crate::state::{Mode, State};

verus! {

/// A byte-addressable non-volatile storage capability. The byte primitives
/// are implementation-specific (a hardware driver arms and triggers the
/// write and busy-waits for completion; the in-memory model just writes);
/// the bulk helpers are defined once, purely in terms of the primitives.
pub trait Storage: Sized {
    /// Whatever well-formedness the implementation needs; a hardware driver
    /// has none, the in-memory model requires a full address space.
    spec fn wf(&self) -> bool;

    /// The byte currently stored at an address.
    spec fn byte_at(&self, addr: u16) -> u8;

    fn read_byte(&self, addr: u16) -> (r: u8)
        requires
            self.wf(),
        ensures
            r == self.byte_at(addr),
    ;

    fn write_byte(&mut self, addr: u16, data: u8)
        requires
            old(self).wf(),
        ensures
            final(self).wf(),
            forall|a: u16|
                final(self).byte_at(a) == (if a == addr {
                    data
                } else {
                    old(self).byte_at(a)
                }),
    ;

    /// Writes a run of bytes at consecutive addresses, one byte at a time.
    fn write_bytes(&mut self, addr: u16, data: &[u8])
        requires
            old(self).wf(),
            addr + data@.len() <= 0x10000,
        ensures
            final(self).wf(),
            forall|a: u16|
                final(self).byte_at(a) == (if addr <= a < addr + data@.len() {
                    data@[a - addr]
                } else {
                    old(self).byte_at(a)
                }),
    {
        let ghost orig = *self;
        let mut i: usize = 0;
        while i < data.len()
            invariant
                self.wf(),
                i <= data@.len(),
                addr + data@.len() <= 0x10000,
                forall|a: u16|
                    self.byte_at(a) == (if addr <= a < addr + i {
                        data@[a - addr]
                    } else {
                        orig.byte_at(a)
                    }),
            decreases data@.len() - i,
        {
            self.write_byte(addr + (i as u16), data[i]);
            i = i + 1;
        }
    }

    /// Reads a run of bytes from consecutive addresses, one byte at a time.
    fn read_bytes(&self, addr: u16, len: usize) -> (r: Vec<u8>)
        requires
            self.wf(),
            addr + len <= 0x10000,
        ensures
            r@.len() == len,
            forall|i: int| 0 <= i < len ==> r@[i] == self.byte_at((addr + i) as u16),
    {
        let mut buf: Vec<u8> = Vec::new();
        let mut i: usize = 0;
        while i < len
            invariant
                self.wf(),
                i <= len,
                addr + len <= 0x10000,
                buf@.len() == i,
                forall|j: int| 0 <= j < i ==> buf@[j] == self.byte_at((addr + j) as u16),
            decreases len - i,
        {
            buf.push(self.read_byte(addr + (i as u16)));
            i = i + 1;
        }
        buf
    }
}

/// An in-memory storage of the full 16-bit address space, the verified model
/// of the device's non-volatile medium. It keeps the driver's discipline of
/// reading an address back and skipping the write when the byte is already
/// the one requested.
pub struct MemStorage {
    pub data: Vec<u8>,
}

impl MemStorage {
    /// A blank storage: every address holds zero.
    pub fn new() -> (r: MemStorage)
        ensures
            r.wf(),
            forall|a: u16| r.byte_at(a) == 0,
    {
        let mut data: Vec<u8> = Vec::new();
        let mut i: usize = 0;
        while i < 0x10000
            invariant
                data@.len() == i,
                i <= 0x10000,
                forall|j: int| 0 <= j < i ==> data@[j] == 0,
            decreases 0x10000 - i,
        {
            data.push(0);
            i = i + 1;
        }
        MemStorage { data }
    }
}

impl Storage for MemStorage {
    open spec fn wf(&self) -> bool {
        self.data@.len() == 0x10000
    }

    open spec fn byte_at(&self, addr: u16) -> u8 {
        self.data@[addr as int]
    }

    fn read_byte(&self, addr: u16) -> (r: u8) {
        self.data[addr as usize]
    }

    fn write_byte(&mut self, addr: u16, data: u8) {
        if self.data[addr as usize] == data {
            // The medium already holds this byte: skip the write, as the
            // hardware driver does to avoid wear.
            return;
        }
        self.data[addr as usize] = data;
    }
}

/// The 2-byte little-endian serialization of a counter value.
pub open spec fn counter_bytes(c: Counter) -> Seq<u8> {
    seq![(c.val % 256) as u8, (c.val / 256) as u8]
}

/// The counter a 2-byte little-endian run decodes to: the stored value, no
/// unsaved changes.
pub open spec fn counter_of_bytes(b: Seq<u8>) -> Counter
    recommends
        b.len() == 2,
{
    Counter { val: (b[0] + b[1] * 256) as u16, dirty: false }
}

/// The 8-byte serialization of the counter set: A, B, C, D in fixed order.
pub open spec fn counters_bytes(cs: Counters) -> Seq<u8> {
    counter_bytes(cs.a) + counter_bytes(cs.b) + counter_bytes(cs.c) + counter_bytes(cs.d)
}

/// The counter set an 8-byte run decodes to.
pub open spec fn counters_of_bytes(b: Seq<u8>) -> Counters
    recommends
        b.len() == 8,
{
    Counters {
        a: counter_of_bytes(b.subrange(0, 2)),
        b: counter_of_bytes(b.subrange(2, 4)),
        c: counter_of_bytes(b.subrange(4, 6)),
        d: counter_of_bytes(b.subrange(6, 8)),
    }
}

/// The counter set with every dirty flag cleared and the values kept.
pub open spec fn cleaned(cs: Counters) -> Counters {
    Counters {
        a: Counter { val: cs.a.val, dirty: false },
        b: Counter { val: cs.b.val, dirty: false },
        c: Counter { val: cs.c.val, dirty: false },
        d: Counter { val: cs.d.val, dirty: false },
    }
}

/// Something with a fixed-size byte serialization that can be written to and
/// read back from a `Storage` at a given address.
pub trait Storable: Sized {
    /// How many bytes the serialization occupies.
    spec fn serial_len() -> nat;

    /// The serialized form.
    spec fn to_bytes(&self) -> Seq<u8>;

    /// The value a byte run of length `serial_len` decodes to.
    spec fn of_bytes(bytes: Seq<u8>) -> Self;

    proof fn lemma_bytes_len(&self)
        ensures
            self.to_bytes().len() == Self::serial_len(),
    ;

    /// Writes the serialization at `addr`; no other address changes.
    fn store<S: Storage>(&self, storage: &mut S, addr: u16)
        requires
            old(storage).wf(),
            addr + Self::serial_len() <= 0x10000,
        ensures
            final(storage).wf(),
            forall|a: u16|
                final(storage).byte_at(a) == (if addr <= a < addr + Self::serial_len() {
                    self.to_bytes()[a - addr]
                } else {
                    old(storage).byte_at(a)
                }),
    ;

    /// Decodes the value stored at `addr`.
    fn load<S: Storage>(storage: &S, addr: u16) -> (r: Self)
        requires
            storage.wf(),
            addr + Self::serial_len() <= 0x10000,
        ensures
            r == Self::of_bytes(
                Seq::new(Self::serial_len(), |i: int| storage.byte_at((addr + i) as u16)),
            ),
    ;
}

impl Storable for Counter {
    open spec fn serial_len() -> nat {
        2
    }

    open spec fn to_bytes(&self) -> Seq<u8> {
        counter_bytes(*self)
    }

    open spec fn of_bytes(bytes: Seq<u8>) -> Self {
        counter_of_bytes(bytes)
    }

    proof fn lemma_bytes_len(&self) {
    }

    fn store<S: Storage>(&self, storage: &mut S, addr: u16) {
        let mut bytes: Vec<u8> = Vec::new();
        bytes.push((self.val % 256) as u8);
        bytes.push((self.val / 256) as u8);
        proof {
            assert(bytes@ =~= counter_bytes(*self));
        }
        storage.write_bytes(addr, bytes.as_slice());
    }

    fn load<S: Storage>(storage: &S, addr: u16) -> (r: Self) {
        let buf = storage.read_bytes(addr, 2);
        let val = (buf[0] as u16) + (buf[1] as u16) * 256;
        let r = Counter::new(val);
        proof {
            let decoded = Seq::new(2, |i: int| storage.byte_at((addr + i) as u16));
            assert(buf@ =~= decoded);
        }
        r
    }
}

impl Storable for Counters {
    open spec fn serial_len() -> nat {
        8
    }

    open spec fn to_bytes(&self) -> Seq<u8> {
        counters_bytes(*self)
    }

    open spec fn of_bytes(bytes: Seq<u8>) -> Self {
        counters_of_bytes(bytes)
    }

    proof fn lemma_bytes_len(&self) {
    }

    fn store<S: Storage>(&self, storage: &mut S, addr: u16) {
        self.a.store(storage, addr);
        self.b.store(storage, addr + 2);
        self.c.store(storage, addr + 4);
        self.d.store(storage, addr + 6);
    }

    fn load<S: Storage>(storage: &S, addr: u16) -> (r: Self) {
        let a = Counter::load(storage, addr);
        let b = Counter::load(storage, addr + 2);
        let c = Counter::load(storage, addr + 4);
        let d = Counter::load(storage, addr + 6);
        let r = Counters { a, b, c, d };
        proof {
            let decoded = Seq::new(8, |i: int| storage.byte_at((addr + i) as u16));
            assert(Seq::new(2, |i: int| storage.byte_at((addr + i) as u16)) =~= decoded.subrange(
                0,
                2,
            ));
            assert(Seq::new(2, |i: int| storage.byte_at((addr + 2 + i) as u16)) =~= decoded
                .subrange(2, 4));
            assert(Seq::new(2, |i: int| storage.byte_at((addr + 4 + i) as u16)) =~= decoded
                .subrange(4, 6));
            assert(Seq::new(2, |i: int| storage.byte_at((addr + 6 + i) as u16)) =~= decoded
                .subrange(6, 8));
        }
        r
    }
}

impl Storable for State {
    open spec fn serial_len() -> nat {
        8
    }

    /// Only the durable counter values are serialized; mode, selection and
    /// editor are transient and reset to defaults on load.
    open spec fn to_bytes(&self) -> Seq<u8> {
        counters_bytes(self.counters)
    }

    open spec fn of_bytes(bytes: Seq<u8>) -> Self {
        State {
            mode: Mode::Normal,
            counters: counters_of_bytes(bytes),
            selected_counter: CounterSelection::A,
            digits_input: None,
        }
    }

    proof fn lemma_bytes_len(&self) {
    }

    fn store<S: Storage>(&self, storage: &mut S, addr: u16) {
        self.counters.store(storage, addr);
    }

    fn load<S: Storage>(storage: &S, addr: u16) -> (r: Self) {
        let counters = Counters::load(storage, addr);
        State {
            mode: Mode::Normal,
            counters,
            selected_counter: CounterSelection::A,
            digits_input: None,
        }
    }
}

/// Serializing a counter set and decoding the bytes back yields the same
/// four values with every dirty flag cleared: the storage round trip is
/// exact, and a reload never reports unsaved changes.
pub proof fn lemma_counters_roundtrip(cs: Counters)
    ensures
        counters_of_bytes(counters_bytes(cs)) == cleaned(cs),
{
    lemma_counter_roundtrip(cs.a);
    lemma_counter_roundtrip(cs.b);
    lemma_counter_roundtrip(cs.c);
    lemma_counter_roundtrip(cs.d);
    assert(counters_bytes(cs).subrange(0, 2) =~= counter_bytes(cs.a));
    assert(counters_bytes(cs).subrange(2, 4) =~= counter_bytes(cs.b));
    assert(counters_bytes(cs).subrange(4, 6) =~= counter_bytes(cs.c));
    assert(counters_bytes(cs).subrange(6, 8) =~= counter_bytes(cs.d));
}

/// Serializing one counter and decoding the two bytes back yields the same
/// value, clean.
pub proof fn lemma_counter_roundtrip(c: Counter)
    ensures
        counter_of_bytes(counter_bytes(c)) == (Counter { val: c.val, dirty: false }),
{
    assert(c.val % 256 + (c.val / 256) * 256 == c.val) by (nonlinear_arith);
}

} // verus!
