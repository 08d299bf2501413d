//! Byte-addressable register memory with per-byte access rights.
//!
//! Every byte of the emulated memory carries one of four access rights,
//! packed two bits per byte into a bitmap. Typed registers give a
//! parse/serialize view of fixed byte ranges, and observers are notified
//! after every successful typed write.

use vstd::arithmetic::div_mod::{lemma_div_is_ordered, lemma_fundamental_div_mod};
use vstd::prelude::*;
use vstd::slice::slice_subrange;
use vstd::slice::slice_to_vec;

verus! {

/// Access right of a single memory cell.
#[derive(Debug, Clone, Copy, PartialEq, Eq, Structural)]
pub enum AccessRight {
    /// Not available: neither readable nor writable.
    NA,
    /// Read only.
    RO,
    /// Write only.
    WO,
    /// Read and write.
    RW,
}

impl AccessRight {
    /// Two-bit encoding: bit 0 is readability, bit 1 is writability.
    pub open spec fn spec_as_num(self) -> u8 {
        match self {
            AccessRight::NA => 0b00,
            AccessRight::RO => 0b01,
            AccessRight::WO => 0b10,
            AccessRight::RW => 0b11,
        }
    }

    /// Decode of the two-bit encoding; total on values below four.
    pub open spec fn spec_from_num(num: u8) -> AccessRight {
        if num == 0b00 {
            AccessRight::NA
        } else if num == 0b01 {
            AccessRight::RO
        } else if num == 0b10 {
            AccessRight::WO
        } else {
            AccessRight::RW
        }
    }

    pub open spec fn spec_is_readable(self) -> bool {
        self == AccessRight::RO || self == AccessRight::RW
    }

    pub open spec fn spec_is_writable(self) -> bool {
        self == AccessRight::WO || self == AccessRight::RW
    }

    /// Greatest lower bound of two rights: the result allows exactly the
    /// operations that both arguments allow.
    pub open spec fn spec_meet(self, rhs: AccessRight) -> AccessRight {
        if self.spec_is_readable() == rhs.spec_is_readable() && self.spec_is_writable()
            == rhs.spec_is_writable() {
            self
        } else if self.spec_is_readable() && rhs.spec_is_readable() {
            AccessRight::RO
        } else if self.spec_is_writable() && rhs.spec_is_writable() {
            AccessRight::WO
        } else {
            AccessRight::NA
        }
    }

    pub fn is_readable(self) -> (r: bool)
        ensures
            r == self.spec_is_readable(),
    {
        let n = self.as_num();
        proof {
            assert(0u8 & 0b1 == 0 && 1u8 & 0b1 == 1 && 2u8 & 0b1 == 0 && 3u8 & 0b1 == 1)
                by (bit_vector);
        }
        n & 0b1 == 1
    }

    pub fn is_writable(self) -> (r: bool)
        ensures
            r == self.spec_is_writable(),
    {
        let n = self.as_num();
        proof {
            assert(0u8 >> 1 == 0 && 1u8 >> 1 == 0 && 2u8 >> 1 == 1 && 3u8 >> 1 == 1)
                by (bit_vector);
        }
        n >> 1 == 1
    }

    pub fn as_num(self) -> (r: u8)
        ensures
            r == self.spec_as_num(),
    {
        match self {
            AccessRight::NA => 0b00,
            AccessRight::RO => 0b01,
            AccessRight::WO => 0b10,
            AccessRight::RW => 0b11,
        }
    }

    pub fn meet(self, rhs: Self) -> (r: Self)
        ensures
            r == self.spec_meet(rhs),
    {
        match self {
            AccessRight::RW => {
                if rhs == AccessRight::RW {
                    AccessRight::RW
                } else {
                    rhs
                }
            },
            AccessRight::RO => {
                if rhs.is_readable() {
                    self
                } else {
                    AccessRight::NA
                }
            },
            AccessRight::WO => {
                if rhs.is_writable() {
                    self
                } else {
                    AccessRight::NA
                }
            },
            AccessRight::NA => AccessRight::NA,
        }
    }

    pub fn from_num(num: u8) -> (r: Self)
        requires
            num < 4,
        ensures
            r == AccessRight::spec_from_num(num),
    {
        if num == 0b00 {
            AccessRight::NA
        } else if num == 0b01 {
            AccessRight::RO
        } else if num == 0b10 {
            AccessRight::WO
        } else {
            AccessRight::RW
        }
    }
}

/// The four rights form a lattice under `meet`, with `RW` as top and `NA`
/// as bottom: `meet` is commutative, associative and idempotent, `RW` is
/// its identity and `NA` absorbs everything.
pub proof fn lemma_meet_lattice(a: AccessRight, b: AccessRight, c: AccessRight)
    ensures
        a.spec_meet(b) == b.spec_meet(a),
        a.spec_meet(b).spec_meet(c) == a.spec_meet(b.spec_meet(c)),
        a.spec_meet(a) == a,
        AccessRight::RW.spec_meet(a) == a,
        AccessRight::NA.spec_meet(a) == AccessRight::NA,
{
}

/// Error of the memory engine.
#[derive(Debug, Clone, Copy, PartialEq, Eq, Structural)]
pub enum MemoryError {
    /// Attempt to read an unreadable address.
    AddressNotReadable,
    /// Attempt to write to an unwritable address.
    AddressNotWritable,
    /// Attempt to access a non-existent memory location.
    InvalidAddress,
    /// A typed register rejected the data handed to it.
    InvalidRegisterData,
}

pub type MemoryResult<T> = Result<T, MemoryError>;

/// Effective right of a run of cells: the fold of `meet` over every
/// cell's right, seeded at `RW` (the right of the empty run).
pub open spec fn spec_meet_range(rights: Seq<AccessRight>) -> AccessRight
    decreases rights.len(),
{
    if rights.len() == 0 {
        AccessRight::RW
    } else {
        spec_meet_range(rights.drop_last()).spec_meet(rights.last())
    }
}

/// A run of cells is readable as a whole exactly when every cell is.
pub proof fn lemma_meet_range_readable(rights: Seq<AccessRight>)
    ensures
        spec_meet_range(rights).spec_is_readable() <==> (forall|i: int|
            0 <= i < rights.len() ==> rights[i].spec_is_readable()),
    decreases rights.len(),
{
    if rights.len() > 0 {
        lemma_meet_range_readable(rights.drop_last());
        assert(forall|i: int| 0 <= i < rights.len() - 1 ==> rights[i]
            == rights.drop_last()[i]);
    }
}

/// A run of cells is writable as a whole exactly when every cell is.
pub proof fn lemma_meet_range_writable(rights: Seq<AccessRight>)
    ensures
        spec_meet_range(rights).spec_is_writable() <==> (forall|i: int|
            0 <= i < rights.len() ==> rights[i].spec_is_writable()),
    decreases rights.len(),
{
    if rights.len() > 0 {
        lemma_meet_range_writable(rights.drop_last());
        assert(forall|i: int| 0 <= i < rights.len() - 1 ==> rights[i]
            == rights.drop_last()[i]);
    }
}

/// Number of bitmap bytes needed for `size` cells at four cells a byte.
pub open spec fn spec_block_count(size: int) -> int {
    if size == 0 {
        0
    } else {
        (size - 1) / 4 + 1
    }
}

/// The right of the cell in `slot` (0 to 3) of a bitmap byte.
pub open spec fn spec_right_in_block(block: u8, slot: int) -> AccessRight {
    AccessRight::spec_from_num((block >> ((slot * 2) as u8)) & 3)
}

/// Per-byte access rights of a memory, packed four cells to a byte: cell
/// `i` occupies bits `(i % 4) * 2` and the one above of byte `i / 4`.
pub struct MemoryProtection {
    inner: Vec<u8>,
    memory_size: usize,
}

impl View for MemoryProtection {
    type V = Seq<AccessRight>;

    closed spec fn view(&self) -> Seq<AccessRight> {
        Seq::new(
            self.memory_size as nat,
            |i: int| spec_right_in_block(self.inner@[i / 4], i % 4),
        )
    }
}

impl MemoryProtection {
    /// The bitmap has exactly one byte for each started group of four cells.
    pub closed spec fn wf(&self) -> bool {
        self.inner@.len() == spec_block_count(self.memory_size as int)
    }

    /// A fresh protection map where no cell is accessible.
    pub fn new(memory_size: usize) -> (r: MemoryProtection)
        ensures
            r.wf(),
            r@.len() == memory_size,
            forall|i: int| 0 <= i < memory_size ==> r@[i] == AccessRight::NA,
    {
        let len = if memory_size == 0 {
            0
        } else {
            (memory_size - 1) / 4 + 1
        };
        let mut inner: Vec<u8> = Vec::new();
        let mut k: usize = 0;
        while k < len
            invariant
                k <= len,
                inner@.len() == k,
                forall|j: int| 0 <= j < k ==> inner@[j] == 0u8,
            decreases len - k,
        {
            inner.push(0);
            k = k + 1;
        }
        let r = MemoryProtection { inner, memory_size };
        proof {
            assert(forall|s: u8| (0u8 >> s) & 3 == 0) by (bit_vector);
            assert forall|i: int| 0 <= i < memory_size implies r@[i] == AccessRight::NA by {
                lemma_div_is_ordered(i, memory_size - 1, 4);
            }
        }
        r
    }

    /// Sets the right of one cell, leaving every other cell unchanged.
    pub fn set_access_right(&mut self, address: usize, access_right: AccessRight)
        requires
            old(self).wf(),
            address < old(self)@.len(),
        ensures
            final(self).wf(),
            final(self)@ == old(self)@.update(address as int, access_right),
    {
        proof {
            lemma_div_is_ordered(address as int, self.memory_size - 1, 4);
        }
        let block_index = address / 4;
        let off: u8 = ((address % 4) * 2) as u8;
        let num = access_right.as_num();
        let old_block = self.inner[block_index];
        let new_block = (old_block & !(0b11u8 << off)) | (num << off);
        self.inner[block_index] = new_block;
        proof {
            let b = old_block;
            let n = num;
            assert((n < 4 && (off == 0 || off == 2 || off == 4 || off == 6)) ==> ((b & !(
            0b11u8 << off)) | (n << off)) >> off & 3 == n) by (bit_vector);
            assert(forall|o2: u8|
                (n < 4 && (off == 0 || off == 2 || off == 4 || off == 6) && (o2 == 0 || o2 == 2
                    || o2 == 4 || o2 == 6) && o2 != off) ==> ((b & !(0b11u8 << off)) | (n
                    << off)) >> o2 & 3 == b >> o2 & 3) by (bit_vector);
            assert forall|i: int| 0 <= i < old(self)@.len() && i != address implies #[trigger] final(self)@[i] == old(self)@[i] by {
                if i / 4 == address / 4 {
                    lemma_fundamental_div_mod(i, 4);
                    lemma_fundamental_div_mod(address as int, 4);
                    assert(i % 4 != address as int % 4);
                    assert(((i % 4) * 2) as u8 == 0 || ((i % 4) * 2) as u8 == 2 || ((i % 4)
                        * 2) as u8 == 4 || ((i % 4) * 2) as u8 == 6);
                } else {
                    lemma_div_is_ordered(i, self.memory_size - 1, 4);
                }
            }
            assert(final(self)@[address as int] == access_right);
            assert(final(self)@ =~= old(self)@.update(address as int, access_right));
        }
    }

    /// The right of one cell.
    pub fn access_right(&self, address: usize) -> (r: AccessRight)
        requires
            self.wf(),
            address < self@.len(),
        ensures
            r == self@[address as int],
    {
        proof {
            lemma_div_is_ordered(address as int, self.memory_size - 1, 4);
        }
        let block = self.inner[address / 4];
        let off: u8 = ((address % 4) * 2) as u8;
        proof {
            assert(block >> off & 3 < 4) by (bit_vector);
        }
        AccessRight::from_num(block >> off & 3)
    }

    /// The effective right of a range of cells: the meet of every cell's
    /// right, `RW` for the empty range.
    pub fn access_right_with_range(&self, range: core::ops::Range<usize>) -> (r: AccessRight)
        requires
            self.wf(),
            range.start <= range.end <= self@.len(),
        ensures
            r == spec_meet_range(self@.subrange(range.start as int, range.end as int)),
    {
        let mut acc = AccessRight::RW;
        let mut i: usize = range.start;
        while i < range.end
            invariant
                self.wf(),
                range.start <= i <= range.end <= self@.len(),
                acc == spec_meet_range(self@.subrange(range.start as int, i as int)),
            decreases range.end - i,
        {
            let r = self.access_right(i);
            proof {
                assert(self@.subrange(range.start as int, i + 1).drop_last() =~= self@
                    .subrange(range.start as int, i as int));
            }
            acc = acc.meet(r);
            i = i + 1;
        }
        proof {
            if range.start == range.end {
                assert(self@.subrange(range.start as int, range.end as int).len() == 0);
            }
        }
        acc
    }

    /// Sets the right of every cell in the range.
    pub fn set_access_right_with_range(
        &mut self,
        range: core::ops::Range<usize>,
        access_right: AccessRight,
    )
        requires
            old(self).wf(),
            range.start <= range.end <= old(self)@.len(),
        ensures
            final(self).wf(),
            final(self)@.len() == old(self)@.len(),
            forall|i: int|
                range.start <= i < range.end ==> final(self)@[i] == access_right,
            forall|i: int|
                0 <= i < old(self)@.len() && !(range.start <= i < range.end) ==> final(self)@[i]
                    == old(self)@[i],
    {
        let mut i: usize = range.start;
        while i < range.end
            invariant
                self.wf(),
                range.start <= i <= range.end <= self@.len(),
                self@.len() == old(self)@.len(),
                forall|j: int| range.start <= j < i ==> self@[j] == access_right,
                forall|j: int|
                    0 <= j < old(self)@.len() && !(range.start <= j < i) ==> self@[j]
                        == old(self)@[j],
            decreases range.end - i,
        {
            self.set_access_right(i, access_right);
            i = i + 1;
        }
    }

    /// A single address is valid exactly when it lies below the memory size.
    pub fn verify_address(&self, address: usize) -> (r: MemoryResult<()>)
        ensures
            r is Ok <==> address < self@.len(),
            r is Err ==> r == MemoryResult::<()>::Err(MemoryError::InvalidAddress),
    {
        if self.memory_size <= address {
            Err(MemoryError::InvalidAddress)
        } else {
            Ok(())
        }
    }

    /// A range of addresses is valid exactly when every address in it is.
    pub fn verify_address_with_range(&self, range: core::ops::Range<usize>) -> (r:
        MemoryResult<()>)
        ensures
            r is Ok <==> (range.start >= range.end || range.end <= self@.len()),
            r is Err ==> r == MemoryResult::<()>::Err(MemoryError::InvalidAddress),
    {
        if range.start >= range.end {
            Ok(())
        } else if range.end <= self.memory_size {
            Ok(())
        } else {
            Err(MemoryError::InvalidAddress)
        }
    }

    /// Copies every right of `rhs` into `self` starting at `offset`.
    pub fn copy_from(&mut self, rhs: &MemoryProtection, offset: usize)
        requires
            old(self).wf(),
            rhs.wf(),
            offset + rhs@.len() <= old(self)@.len(),
        ensures
            final(self).wf(),
            final(self)@.len() == old(self)@.len(),
            forall|i: int|
                0 <= i < rhs@.len() ==> final(self)@[offset + i] == rhs@[i],
            forall|i: int|
                0 <= i < old(self)@.len() && !(offset <= i < offset + rhs@.len())
                    ==> final(self)@[i] == old(self)@[i],
    {
        let mut i: usize = 0;
        let rhs_len = rhs.memory_size;
        proof {
            assert(rhs@.len() == rhs.memory_size);
        }
        while i < rhs_len
            invariant
                self.wf(),
                rhs.wf(),
                rhs@.len() == rhs_len,
                i <= rhs_len,
                offset + rhs_len <= self@.len(),
                self@.len() == old(self)@.len(),
                forall|j: int| 0 <= j < i ==> self@[offset + j] == rhs@[j],
                forall|j: int|
                    0 <= j < old(self)@.len() && !(offset <= j < offset + i) ==> self@[j]
                        == old(self)@[j],
            decreases rhs_len - i,
        {
            let right = rhs.access_right(i);
            self.set_access_right(offset + i, right);
            i = i + 1;
        }
    }
}

/// Address and length of a typed register inside the memory.
#[derive(Debug, Clone, Copy, PartialEq, Eq, Structural)]
pub struct RawRegister {
    /// Offset of the register.
    pub offset: usize,
    /// Length of the register in bytes.
    pub len: usize,
}

impl RawRegister {
    pub open spec fn spec_end(self) -> int {
        self.offset + self.len
    }

    pub fn new(offset: usize, len: usize) -> (r: RawRegister)
        ensures
            r == (RawRegister { offset, len }),
    {
        RawRegister { offset, len }
    }

    pub fn range(&self) -> (r: core::ops::Range<usize>)
        requires
            self.offset + self.len <= usize::MAX,
        ensures
            r.start == self.offset,
            r.end == self.spec_end(),
    {
        self.offset..self.offset + self.len
    }
}

/// A typed register: a static byte range together with a parse/serialize
/// pair that is total on that range. Implementations prove that
/// serialization emits exactly the register's length and that parsing
/// inverts it.
pub trait Register {
    type Ty: View;

    /// The register's place in the memory.
    spec fn spec_raw() -> RawRegister;

    /// Value of a byte range of the register's length, if it is well formed.
    spec fn spec_parse(data: Seq<u8>) -> Option<<Self::Ty as View>::V>;

    /// Byte encoding of a value, if the value fits the register.
    spec fn spec_serialize(v: <Self::Ty as View>::V) -> Option<Seq<u8>>;

    /// Serialization emits exactly the register's length and parsing
    /// inverts it.
    proof fn lemma_serialize_wf(v: <Self::Ty as View>::V)
        ensures
            Self::spec_serialize(v) matches Some(bytes) ==> bytes.len()
                == Self::spec_raw().len && Self::spec_parse(bytes) == Some(v),
    ;

    fn raw() -> (r: RawRegister)
        ensures
            r == Self::spec_raw(),
    ;

    fn parse(data: &[u8]) -> (r: MemoryResult<Self::Ty>)
        requires
            data@.len() == Self::spec_raw().len,
        ensures
            r matches Ok(v) ==> Self::spec_parse(data@) == Some(v@),
            r is Err <==> Self::spec_parse(data@) is None,
            r matches Err(e) ==> e == MemoryError::InvalidRegisterData,
    ;

    fn serialize(data: Self::Ty) -> (r: MemoryResult<Vec<u8>>)
        ensures
            r matches Ok(bytes) ==> Self::spec_serialize(data@) == Some(bytes@),
            r is Err <==> Self::spec_serialize(data@) is None,
            r matches Err(e) ==> e == MemoryError::InvalidRegisterData,
    ;
}

/// One-way notification fired after a successful typed write to a
/// register the observer was registered for.
pub trait MemoryObserver {
    fn update(&mut self);
}

/// An observer together with the register it watches.
pub struct ObserverEntry<O> {
    pub target: RawRegister,
    pub observer: O,
}

/// `mem` with `bytes` written at offset `at`.
pub open spec fn spec_splice(mem: Seq<u8>, at: int, bytes: Seq<u8>) -> Seq<u8> {
    mem.take(at) + bytes + mem.skip(at + bytes.len())
}

/// The value a typed register holds in a memory image.
pub open spec fn spec_typed_read<R: Register>(mem: Seq<u8>) -> Option<<R::Ty as View>::V> {
    R::spec_parse(mem.subrange(R::spec_raw().offset as int, R::spec_raw().spec_end()))
}

/// The memory image after a typed write, if the value serializes.
pub open spec fn spec_typed_write<R: Register>(mem: Seq<u8>, v: <R::Ty as View>::V) -> Option<
    Seq<u8>,
> {
    match R::spec_serialize(v) {
        Some(bytes) => Some(spec_splice(mem, R::spec_raw().offset as int, bytes)),
        None => None,
    }
}

/// Writing a value to a register and reading the register back yields
/// that value, whenever serialization succeeds.
pub proof fn lemma_typed_write_then_read<R: Register>(mem: Seq<u8>, v: <R::Ty as View>::V)
    requires
        R::spec_raw().spec_end() <= mem.len(),
    ensures
        spec_typed_write::<R>(mem, v) matches Some(m1) ==> spec_typed_read::<R>(m1)
            == Some(v),
{
    R::lemma_serialize_wf(v);
    match R::spec_serialize(v) {
        Some(bytes) => {
            let at = R::spec_raw().offset as int;
            let m1 = spec_splice(mem, at, bytes);
            assert(m1.subrange(at, at + bytes.len()) =~= bytes);
        },
        None => {},
    }
}

/// The byte-addressable memory: a byte store, a parallel rights bitmap,
/// and the registered observers. Raw access is checked against the
/// rights; typed access through a register bypasses them.
pub struct Memory<O: MemoryObserver> {
    data: Vec<u8>,
    protection: MemoryProtection,
    observers: Vec<ObserverEntry<O>>,
}

impl<O: MemoryObserver> Memory<O> {
    pub closed spec fn wf(&self) -> bool {
        self.protection.wf() && self.data@.len() == self.protection@.len()
    }

    pub closed spec fn spec_data(&self) -> Seq<u8> {
        self.data@
    }

    pub closed spec fn spec_rights(&self) -> Seq<AccessRight> {
        self.protection@
    }

    pub open spec fn spec_size(&self) -> int {
        self.spec_data().len() as int
    }

    pub closed spec fn spec_observers(&self) -> Seq<ObserverEntry<O>> {
        self.observers@
    }

    pub open spec fn spec_observer_targets(&self) -> Seq<RawRegister> {
        self.spec_observers().map_values(|e: ObserverEntry<O>| e.target)
    }

    /// A fresh memory of `size` zeroed bytes, every cell `NA`.
    pub fn new(size: usize) -> (r: Memory<O>)
        ensures
            r.wf(),
            r.spec_size() == size,
            r.spec_rights().len() == size,
            forall|i: int| 0 <= i < size ==> r.spec_data()[i] == 0u8,
            forall|i: int| 0 <= i < size ==> r.spec_rights()[i] == AccessRight::NA,
            r.spec_observers() =~= Seq::<ObserverEntry<O>>::empty(),
    {
        let mut data: Vec<u8> = Vec::new();
        let mut k: usize = 0;
        while k < size
            invariant
                k <= size,
                data@.len() == k,
                forall|j: int| 0 <= j < k ==> data@[j] == 0u8,
            decreases size - k,
        {
            data.push(0);
            k = k + 1;
        }
        Memory { data, protection: MemoryProtection::new(size), observers: Vec::new() }
    }

    pub fn size(&self) -> (r: usize)
        ensures
            r == self.spec_size(),
    {
        self.data.len()
    }

    /// Copies `buf` into the store at `at`; rights and observers stay.
    fn splice_bytes(&mut self, at: usize, buf: &[u8])
        requires
            old(self).wf(),
            at + buf@.len() <= old(self).spec_size(),
        ensures
            final(self).wf(),
            final(self).spec_data() == spec_splice(old(self).spec_data(), at as int, buf@),
            final(self).spec_rights() == old(self).spec_rights(),
            final(self).spec_observers() == old(self).spec_observers(),
    {
        let len = buf.len();
        let mut i: usize = 0;
        while i < len
            invariant
                self.wf(),
                buf@.len() == len,
                i <= len,
                at + len <= self.spec_size(),
                self.spec_size() == old(self).spec_size(),
                self.spec_rights() == old(self).spec_rights(),
                self.spec_observers() == old(self).spec_observers(),
                forall|j: int|
                    0 <= j < self.spec_size() ==> self.spec_data()[j] == (if at <= j < at
                        + i {
                        buf@[j - at]
                    } else {
                        old(self).spec_data()[j]
                    }),
            decreases len - i,
        {
            let b = *vstd::slice::slice_index_get(buf, i);
            self.data[at + i] = b;
            i = i + 1;
        }
        proof {
            assert(final(self).spec_data() =~= spec_splice(
                old(self).spec_data(),
                at as int,
                buf@,
            ));
        }
    }

    /// Host-visible read: range checked, then gated on every byte being
    /// readable; returns the bytes in the range.
    pub fn read_raw(&self, range: core::ops::Range<usize>) -> (r: MemoryResult<Vec<u8>>)
        requires
            self.wf(),
            range.start <= range.end,
        ensures
            r is Ok <==> (range.end <= self.spec_size() && (forall|i: int|
                range.start <= i < range.end ==> self.spec_rights()[i].spec_is_readable())),
            r matches Ok(bytes) ==> bytes@ == self.spec_data().subrange(
                range.start as int,
                range.end as int,
            ),
            range.end > self.spec_size() ==> r == MemoryResult::<Vec<u8>>::Err(
                MemoryError::InvalidAddress,
            ),
            r is Err && range.end <= self.spec_size() ==> r == MemoryResult::<Vec<u8>>::Err(
                MemoryError::AddressNotReadable,
            ),
    {
        let start = range.start;
        let end = range.end;
        if end > self.data.len() {
            return Err(MemoryError::InvalidAddress);
        }
        let right = self.protection.access_right_with_range(start..end);
        proof {
            lemma_meet_range_readable(self.spec_rights().subrange(start as int, end as int));
            assert(forall|i: int|
                start <= i < end ==> self.spec_rights().subrange(start as int, end as int)[i
                    - start] == self.spec_rights()[i]);
        }
        if !right.is_readable() {
            return Err(MemoryError::AddressNotReadable);
        }
        let s = slice_subrange(self.data.as_slice(), start, end);
        Ok(slice_to_vec(s))
    }

    /// Host-visible write: range checked, then gated on every byte being
    /// writable; on success the range holds `buf`.
    pub fn write_raw(&mut self, addr: usize, buf: &[u8]) -> (r: MemoryResult<()>)
        requires
            old(self).wf(),
        ensures
            final(self).wf(),
            r is Ok <==> (addr + buf@.len() <= old(self).spec_size() && (forall|i: int|
                addr <= i < addr + buf@.len() ==> old(self).spec_rights()[i]
                    .spec_is_writable())),
            addr + buf@.len() > old(self).spec_size() ==> r == MemoryResult::<()>::Err(
                MemoryError::InvalidAddress,
            ),
            r is Err && addr + buf@.len() <= old(self).spec_size() ==> r
                == MemoryResult::<()>::Err(MemoryError::AddressNotWritable),
            r is Ok ==> final(self).spec_data() == spec_splice(
                old(self).spec_data(),
                addr as int,
                buf@,
            ),
            r is Err ==> final(self).spec_data() == old(self).spec_data(),
            final(self).spec_rights() == old(self).spec_rights(),
            final(self).spec_observers() == old(self).spec_observers(),
    {
        let len = self.data.len();
        if addr > len {
            return Err(MemoryError::InvalidAddress);
        }
        if buf.len() > len - addr {
            return Err(MemoryError::InvalidAddress);
        }
        let end = addr + buf.len();
        let right = self.protection.access_right_with_range(addr..end);
        proof {
            lemma_meet_range_writable(self.spec_rights().subrange(addr as int, end as int));
            assert(forall|i: int|
                addr <= i < end ==> self.spec_rights().subrange(addr as int, end as int)[i
                    - addr] == self.spec_rights()[i]);
        }
        if !right.is_writable() {
            return Err(MemoryError::AddressNotWritable);
        }
        self.splice_bytes(addr, buf);
        Ok(())
    }

    /// Machine-side typed read: bypasses the access rights.
    pub fn read<R: Register>(&self) -> (r: MemoryResult<R::Ty>)
        requires
            self.wf(),
            R::spec_raw().spec_end() <= self.spec_size(),
        ensures
            r matches Ok(v) ==> spec_typed_read::<R>(self.spec_data()) == Some(v@),
            r is Err <==> spec_typed_read::<R>(self.spec_data()) is None,
            r matches Err(e) ==> e == MemoryError::InvalidRegisterData,
    {
        let raw = R::raw();
        proof {
            assert(vstd::std_specs::vec::spec_vec_len(&self.data) == self.data@.len());
        }
        let s = slice_subrange(self.data.as_slice(), raw.offset, raw.offset + raw.len);
        R::parse(s)
    }

    /// Machine-side typed write: bypasses the access rights, updates the
    /// register's range, then notifies that register's observers in
    /// registration order. If serialization fails the memory is untouched
    /// and no observer is notified.
    pub fn write<R: Register>(&mut self, data: R::Ty) -> (r: MemoryResult<()>)
        requires
            old(self).wf(),
            R::spec_raw().spec_end() <= old(self).spec_size(),
        ensures
            final(self).wf(),
            r is Ok <==> R::spec_serialize(data@) is Some,
            r matches Err(e) ==> e == MemoryError::InvalidRegisterData,
            r is Ok ==> final(self).spec_data() == spec_typed_write::<R>(
                old(self).spec_data(),
                data@,
            ).unwrap(),
            r is Err ==> final(self).spec_data() == old(self).spec_data(),
            r is Err ==> final(self).spec_observers() == old(self).spec_observers(),
            final(self).spec_rights() == old(self).spec_rights(),
            final(self).spec_observer_targets() == old(self).spec_observer_targets(),
            forall|i: int|
                0 <= i < old(self).spec_observers().len() && old(self).spec_observers()[i]
                    .target != R::spec_raw() ==> final(self).spec_observers()[i] == old(self).spec_observers()[i],
    {
        proof {
            R::lemma_serialize_wf(data@);
        }
        let bytes = match R::serialize(data) {
            Ok(b) => b,
            Err(e) => {
                return Err(e);
            },
        };
        let raw = R::raw();
        self.splice_bytes(raw.offset, bytes.as_slice());
        let ghost after_write = *self;
        let n = self.observers.len();
        let mut j: usize = 0;
        while j < n
            invariant
                j <= n,
                self.wf(),
                raw == R::spec_raw(),
                after_write.spec_observers().len() == n,
                self.observers@.len() == n,
                self.spec_data() == after_write.spec_data(),
                self.spec_rights() == after_write.spec_rights(),
                forall|i: int|
                    0 <= i < n ==> #[trigger] self.spec_observers()[i].target == after_write
                        .spec_observers()[i].target,
                forall|i: int|
                    0 <= i < n && after_write.spec_observers()[i].target != R::spec_raw()
                        ==> self.spec_observers()[i] == after_write.spec_observers()[i],
            decreases n - j,
        {
            let matched = self.observers[j].target == raw;
            let ghost prev = *self;
            if matched {
                notify_at(&mut self.observers, j);
            }
            proof {
                assert forall|i: int|
                    0 <= i < n implies #[trigger] self.spec_observers()[i].target == after_write
                    .spec_observers()[i].target by {
                    assert(prev.spec_observers()[i].target == after_write.spec_observers()[
                        i
                    ].target);
                    if i != j as int {
                        assert(self.spec_observers()[i] == prev.spec_observers()[i]);
                    } else {
                        assert(self.spec_observers()[i].target == prev.spec_observers()[
                            i
                        ].target);
                    }
                }
                assert forall|i: int|
                    0 <= i < n && after_write.spec_observers()[i].target != R::spec_raw()
                    implies self.spec_observers()[i] == after_write.spec_observers()[i] by {
                    assert(prev.spec_observers()[i] == after_write.spec_observers()[i]);
                    if i != j as int {
                        assert(self.spec_observers()[i] == prev.spec_observers()[i]);
                    } else {
                        assert(prev.spec_observers()[i].target == after_write
                            .spec_observers()[i].target);
                        if !matched {
                            assert(self.spec_observers()[i] == prev.spec_observers()[i]);
                        }
                    }
                }
            }
            j = j + 1;
        }
        proof {
            assert(final(self).spec_observer_targets() =~= old(self).spec_observer_targets());
        }
        Ok(())
    }

    /// Sets the access right of every byte of the register's range.
    pub fn set_access_right<R: Register>(&mut self, access_right: AccessRight)
        requires
            old(self).wf(),
            R::spec_raw().spec_end() <= old(self).spec_size(),
        ensures
            final(self).wf(),
            final(self).spec_data() == old(self).spec_data(),
            final(self).spec_observers() == old(self).spec_observers(),
            final(self).spec_rights().len() == old(self).spec_rights().len(),
            forall|i: int|
                R::spec_raw().offset <= i < R::spec_raw().spec_end() ==> final(self).spec_rights()[i] == access_right,
            forall|i: int|
                0 <= i < old(self).spec_rights().len() && !(R::spec_raw().offset <= i
                    < R::spec_raw().spec_end()) ==> final(self).spec_rights()[i] == old(self).spec_rights()[i],
    {
        let raw = R::raw();
        self.protection.set_access_right_with_range(raw.offset..raw.offset + raw.len,
            access_right);
    }

    /// The effective right of the register's range.
    pub fn access_right<R: Register>(&self) -> (r: AccessRight)
        requires
            self.wf(),
            R::spec_raw().spec_end() <= self.spec_size(),
        ensures
            r == spec_meet_range(self.spec_rights().subrange(
                R::spec_raw().offset as int,
                R::spec_raw().spec_end(),
            )),
    {
        let raw = R::raw();
        proof {
            assert(vstd::std_specs::vec::spec_vec_len(&self.data) == self.data@.len());
        }
        self.protection.access_right_with_range(raw.offset..raw.offset + raw.len)
    }

    /// Sets the access right of every byte in the range; used for regions
    /// that no typed register covers.
    pub fn set_access_right_with_range(
        &mut self,
        range: core::ops::Range<usize>,
        access_right: AccessRight,
    )
        requires
            old(self).wf(),
            range.start <= range.end <= old(self).spec_size(),
        ensures
            final(self).wf(),
            final(self).spec_data() == old(self).spec_data(),
            final(self).spec_observers() == old(self).spec_observers(),
            final(self).spec_rights().len() == old(self).spec_rights().len(),
            forall|i: int|
                range.start <= i < range.end ==> final(self).spec_rights()[i]
                    == access_right,
            forall|i: int|
                0 <= i < old(self).spec_rights().len() && !(range.start <= i < range.end)
                    ==> final(self).spec_rights()[i] == old(self).spec_rights()[i],
    {
        self.protection.set_access_right_with_range(range, access_right);
    }

    /// Appends an observer for register `R`; duplicates are allowed and
    /// notification order is registration order.
    pub fn register_observer<R: Register>(&mut self, observer: O)
        requires
            old(self).wf(),
        ensures
            final(self).wf(),
            final(self).spec_data() == old(self).spec_data(),
            final(self).spec_rights() == old(self).spec_rights(),
            final(self).spec_observers() == old(self).spec_observers().push(
                ObserverEntry { target: R::spec_raw(), observer },
            ),
    {
        let raw = R::raw();
        self.observers.push(ObserverEntry { target: raw, observer });
    }
}

/// Notifies the observer stored at `j`; every other entry, and the
/// entry's own target register, are untouched.
fn notify_at<O: MemoryObserver>(v: &mut Vec<ObserverEntry<O>>, j: usize)
    requires
        j < old(v)@.len(),
    ensures
        final(v)@.len() == old(v)@.len(),
        final(v)@[j as int].target == old(v)@[j as int].target,
        forall|i: int| 0 <= i < old(v)@.len() && i != j ==> final(v)@[i] == old(v)@[i],
{
    let entry = &mut v[j];
    entry.observer.update();
}

} // verus!
