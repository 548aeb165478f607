//! Immutable byte buffers.
use crate::handle::RCHandle;
use vstd::prelude::*;
use vstd::slice::{slice_subrange, slice_to_vec};
use vstd::std_specs::cmp::PartialEqSpec;
use vstd::string::{StringExecFns, StringSliceAdditionalSpecFns};

verus! {

/// Where the bytes of a [`DataBlock`] live.
enum Storage {
    /// Bytes that the block owns.
    Owned(Vec<u8>),
    /// Bytes that live as long as the program, used without a copy.
    Borrowed(&'static [u8]),
}

/// The object behind a [`Data`] handle: a block of bytes that never changes
/// after it was made.
pub struct DataBlock {
    storage: Storage,
}

impl View for DataBlock {
    type V = Seq<u8>;

    closed spec fn view(&self) -> Seq<u8> {
        match self.storage {
            Storage::Owned(v) => v@,
            Storage::Borrowed(s) => s@,
        }
    }
}

impl DataBlock {
    fn bytes(&self) -> (r: &[u8])
        ensures
            r@ == self@,
    {
        match &self.storage {
            Storage::Owned(v) => v.as_slice(),
            Storage::Borrowed(s) => *s,
        }
    }
}

/// An immutable, shareable block of bytes.
///
/// Its view is the sequence of its bytes. Clones share the block.
pub type Data = RCHandle<DataBlock>;

/// `n` zero bytes.
pub open spec fn zeros(n: nat) -> Seq<u8> {
    Seq::new(n, |i: int| 0u8)
}

/// A C string: some bytes that are not zero, followed by one zero byte.
pub open spec fn is_c_string(s: Seq<u8>) -> bool {
    &&& s.len() > 0
    &&& s.last() == 0u8
    &&& forall|i: int| 0 <= i < s.len() - 1 ==> s[i] != 0u8
}

/// The decimal digit `d`, for `d < 10`.
pub open spec fn digit_char(d: nat) -> char {
    seq!['0', '1', '2', '3', '4', '5', '6', '7', '8', '9'][d as int]
}

/// The decimal digits of `n`, without leading zeros.
pub open spec fn decimal(n: nat) -> Seq<char>
    decreases n,
{
    if n < 10 {
        seq![digit_char(n)]
    } else {
        decimal(n / 10).push(digit_char(n % 10))
    }
}

/// Relies on `usize::to_string`, which writes an unsigned integer in
/// decimal digits with no sign and no leading zeros.
#[verifier::external_body]
fn decimal_string(n: usize) -> (r: String)
    ensures
        r@ == decimal(n as nat),
{
    n.to_string()
}

impl RCHandle<DataBlock> {
    fn from_storage(storage: Storage) -> (r: Data)
        ensures
            r@ == (DataBlock { storage })@,
    {
        RCHandle::from_native(DataBlock { storage })
    }

    /// The number of bytes.
    pub fn size(&self) -> (r: usize)
        ensures
            r == self@.len(),
    {
        self.native().bytes().len()
    }

    /// Whether there are no bytes.
    pub fn is_empty(&self) -> (r: bool)
        ensures
            r == (self@.len() == 0),
    {
        self.size() == 0
    }

    /// A read-only view of the bytes, valid while this handle lives.
    pub fn as_bytes(&self) -> (r: &[u8])
        ensures
            r@ == self@,
    {
        self.native().bytes()
    }

    /// Copies the `buffer.len()` bytes that start at `offset` into `buffer`.
    pub fn copy_range(&self, offset: usize, buffer: &mut [u8]) -> (r: &Self)
        requires
            offset + old(buffer)@.len() <= self@.len(),
        ensures
            r == self,
            final(buffer)@ == self@.subrange(offset as int, offset + old(buffer)@.len()),
    {
        let bytes = self.as_bytes();
        let len = bytes.len();
        let n = buffer.len();
        let mut i: usize = 0;
        while i < n
            invariant
                n == old(buffer)@.len(),
                buffer@.len() == n,
                bytes@ == self@,
                len == bytes@.len(),
                offset + n <= len,
                i <= n,
                forall|j: int| 0 <= j < i ==> buffer@[j] == bytes@[offset + j],
            decreases n - i,
        {
            buffer[i] = bytes[offset + i];
            i += 1;
        }
        assert(buffer@ =~= self@.subrange(offset as int, offset + n));
        self
    }

    /// Copies the `buffer.len()` bytes that start at `offset` into `buffer`
    /// when they lie within these bytes; otherwise leaves `buffer` as
    /// it was and returns `None`.
    pub fn try_copy_range(&self, offset: usize, buffer: &mut [u8]) -> (r: Option<&Self>)
        ensures
            r is None <==> offset + old(buffer)@.len() > self@.len(),
            r is Some ==> r->0 == self && final(buffer)@ == self@.subrange(
                offset as int,
                offset + old(buffer)@.len(),
            ),
            r is None ==> final(buffer)@ == old(buffer)@,
    {
        let size = self.size();
        if offset <= size && buffer.len() <= size - offset {
            Some(self.copy_range(offset, buffer))
        } else {
            None
        }
    }

    /// A description that gives the number of bytes, not the bytes
    /// themselves: `Data { size: 3 }`.
    pub fn debug_string(&self) -> (r: String)
        ensures
            r@ == "Data { size: "@ + decimal(self@.len()) + " }"@,
    {
        let mut r = String::from_str("Data { size: ");
        let digits = decimal_string(self.size());
        r.append(digits.as_str());
        r.append(" }");
        r
    }

    /// A new buffer that holds a copy of `data`.
    pub fn new_copy(data: &[u8]) -> (r: Self)
        ensures
            r@ == data@,
    {
        Self::from_storage(Storage::Owned(slice_to_vec(data)))
    }

    /// A new buffer over `data`, without a copy.
    ///
    /// The bytes live as long as the program, so they outlive every handle.
    pub fn new_bytes(data: &'static [u8]) -> (r: Self)
        ensures
            r@ == data@,
    {
        Self::from_storage(Storage::Borrowed(data))
    }

    /// A new buffer of `length` bytes whose content is left unspecified.
    pub fn new_uninitialized(length: usize) -> (r: Self)
        ensures
            r@.len() == length,
    {
        Self::new_zero_initialized(length)
    }

    /// A new buffer of `length` zero bytes.
    pub fn new_zero_initialized(length: usize) -> (r: Self)
        ensures
            r@ == zeros(length as nat),
    {
        let mut v: Vec<u8> = Vec::with_capacity(length);
        let mut i: usize = 0;
        while i < length
            invariant
                i <= length,
                v@ == zeros(i as nat),
            decreases length - i,
        {
            v.push(0u8);
            i += 1;
            assert(v@ =~= zeros(i as nat));
        }
        Self::from_storage(Storage::Owned(v))
    }

    /// A new buffer that holds the `length` bytes of `data` that start at
    /// `offset`.
    ///
    /// A window into bytes that live as long as the program shares them;
    /// one into owned bytes is a copy.
    pub fn new_subset(data: &Data, offset: usize, length: usize) -> (r: Data)
        requires
            offset + length <= data@.len(),
        ensures
            r@ == data@.subrange(offset as int, offset + length),
    {
        let total = data.size();
        assert(offset + length <= total);
        let end = offset + length;
        match &data.native().storage {
            Storage::Owned(v) => Self::new_copy(slice_subrange(v.as_slice(), offset, end)),
            Storage::Borrowed(s) => Self::from_storage(Storage::Borrowed(slice_subrange(*s, offset, end))),
        }
    }

    /// A new buffer that holds the UTF-8 bytes of `s` followed by a zero
    /// byte, the form in which a C string is stored.
    pub fn new_str(s: &str) -> (r: Data)
        requires
            !s.spec_bytes().contains(0u8),
        ensures
            r@ == s.spec_bytes().push(0u8),
    {
        let mut v = slice_to_vec(s.as_bytes());
        v.push(0u8);
        assert(is_c_string(v@)) by {
            assert forall|i: int| 0 <= i < v@.len() - 1 implies v@[i] != 0u8 by {
                assert(v@[i] == s.spec_bytes()[i]);
            }
        }
        Self::new_cstr(v.as_slice())
    }

    /// A new buffer that holds a copy of the C string `cstr`, its final
    /// zero byte included.
    pub fn new_cstr(cstr: &[u8]) -> (r: Data)
        requires
            is_c_string(cstr@),
        ensures
            r@ == cstr@,
    {
        Self::new_copy(cstr)
    }

    /// A new buffer with no bytes.
    pub fn new_empty() -> (r: Self)
        ensures
            r@ == Seq::<u8>::empty(),
    {
        Self::from_storage(Storage::Owned(Vec::new()))
    }
}

impl PartialEq for RCHandle<DataBlock> {
    /// Compares the bytes, not the identity of the blocks.
    fn eq(&self, other: &Self) -> (r: bool) {
        let a = self.as_bytes();
        let b = other.as_bytes();
        if a.len() != b.len() {
            assert(a@.len() != b@.len());
            return false;
        }
        let n = a.len();
        let mut i: usize = 0;
        while i < n
            invariant
                a@ == self@,
                b@ == other@,
                n == a@.len(),
                n == b@.len(),
                i <= n,
                forall|j: int| 0 <= j < i ==> a@[j] == b@[j],
            decreases n - i,
        {
            if a[i] != b[i] {
                return false;
            }
            i += 1;
        }
        assert(a@ =~= b@);
        true
    }
}

impl vstd::std_specs::cmp::PartialEqSpecImpl for RCHandle<DataBlock> {
    open spec fn obeys_eq_spec() -> bool {
        true
    }

    open spec fn eq_spec(&self, other: &Self) -> bool {
        self@ == other@
    }
}

impl std::ops::Deref for RCHandle<DataBlock> {
    type Target = [u8];

    /// The bytes, as [`RCHandle::as_bytes`] gives them.
    fn deref(&self) -> (r: &[u8])
        ensures
            r@ == self@,
    {
        self.as_bytes()
    }
}

/// Buffers are equal exactly when they hold the same bytes: two buffers
/// copied from the same source are equal although each has a block of its
/// own, and buffers with different bytes are not.
pub proof fn lemma_eq_is_byte_equality(d1: &Data, d2: &Data)
    ensures
        d1.eq_spec(d2) <==> d1@ == d2@,
        d1@ == d2@ ==> d1.eq_spec(d2) && d2.eq_spec(d1),
{
}

} // verus!
