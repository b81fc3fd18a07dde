//! A byte array of fixed capacity that holds valid UTF-8.

use vstd::prelude::*;
use vstd::utf8::*;
use vstd::string::StringSliceAdditionalSpecFns;

verus! {

broadcast use {vstd::utf8::encode_utf8_valid_utf8, vstd::utf8::valid_utf8_split};

/// The largest character boundary of `bytes` at or below `i` (0 when `i`
/// is not positive).
pub open spec fn floor_boundary(bytes: Seq<u8>, i: int) -> int
    decreases i,
{
    if i <= 0 {
        0
    } else if is_char_boundary(bytes, i) {
        i
    } else {
        floor_boundary(bytes, i - 1)
    }
}

/// The number of bytes that `from_str_trunc` keeps of `bytes` for a
/// capacity `cap`: the largest character boundary within both.
pub open spec fn kept_len(bytes: Seq<u8>, cap: int) -> int {
    floor_boundary(bytes, if bytes.len() < cap { bytes.len() as int } else { cap })
}

/// `floor_boundary` is a character boundary between 0 and `i`, and no
/// larger boundary lies at or below `i`.
pub proof fn lemma_floor_boundary(bytes: Seq<u8>, i: int)
    requires
        valid_utf8(bytes),
        i <= bytes.len(),
    ensures
        0 <= floor_boundary(bytes, i),
        i >= 0 ==> floor_boundary(bytes, i) <= i,
        is_char_boundary(bytes, floor_boundary(bytes, i)),
        forall|j: int| floor_boundary(bytes, i) < j <= i ==> !is_char_boundary(bytes, j),
    decreases i,
{
    if i > 0 && !is_char_boundary(bytes, i) {
        lemma_floor_boundary(bytes, i - 1);
    }
}

/// `std::str::Utf8Error`, the error of a failed UTF-8 conversion.
#[verifier::external_type_specification]
#[verifier::external_body]
pub struct ExUtf8Error(std::str::Utf8Error);

/// `std::str::from_utf8`: the bytes read as a string slice exactly when they
/// are valid UTF-8; the slice then encodes to those bytes.
#[verifier::external_body]
fn str_from_utf8(v: &[u8]) -> (r: Result<&str, std::str::Utf8Error>)
    ensures
        r is Ok <==> valid_utf8(v@),
        r matches Ok(s) ==> s.spec_bytes() == v@,
{
    std::str::from_utf8(v)
}

/// A byte array of `CAPACITY` bytes whose first `len` bytes are valid UTF-8.
pub struct FixedByteArray<const CAPACITY: usize> {
    buf: Vec<u8>,
    len: usize,
}

impl<const CAPACITY: usize> FixedByteArray<CAPACITY> {
    /// The array has `CAPACITY` bytes, and its used prefix is valid UTF-8.
    #[verifier::type_invariant]
    spec fn inv(&self) -> bool {
        &&& self.buf@.len() == CAPACITY
        &&& self.len <= CAPACITY
        &&& valid_utf8(self.buf@.subrange(0, self.len as int))
    }

    /// The bytes in use.
    pub closed spec fn used_bytes(&self) -> Seq<u8> {
        self.buf@.subrange(0, self.len as int)
    }

    /// Copies the longest prefix of `s` that fits in `CAPACITY` bytes and
    /// ends on a character boundary.
    pub fn from_str_trunc(s: &str) -> (r: Self)
        ensures
            r.used_bytes() == s.spec_bytes().subrange(0, kept_len(s.spec_bytes(), CAPACITY as int)),
    {
        let ghost b = s.spec_bytes();
        let mut buf: Vec<u8> = Vec::new();
        let mut k: usize = 0;
        while k < CAPACITY
            invariant
                k <= CAPACITY,
                buf@.len() == k,
            decreases CAPACITY - k,
        {
            buf.push(0);
            k = k + 1;
        }
        let bytes = s.as_bytes();
        let n: usize = if bytes.len() < CAPACITY {
            bytes.len()
        } else {
            CAPACITY
        };
        proof {
            is_char_boundary_start_end_of_seq(b);
        }
        let mut end: usize = n;
        while !s.is_char_boundary(end)
            invariant
                end <= n,
                n == (if b.len() < CAPACITY { b.len() as int } else { CAPACITY as int }),
                b == s.spec_bytes(),
                bytes@ == b,
                valid_utf8(b),
                is_char_boundary(b, 0),
                floor_boundary(b, end as int) == floor_boundary(b, n as int),
            decreases end,
        {
            end = end - 1;
        }
        proof {
            assert(floor_boundary(b, end as int) == end);
            assert(end == kept_len(b, CAPACITY as int));
        }
        let mut i: usize = 0;
        while i < end
            invariant
                i <= end <= n <= CAPACITY,
                n <= b.len(),
                bytes@ == b,
                end == kept_len(b, CAPACITY as int),
                buf@.len() == CAPACITY,
                buf@.subrange(0, i as int) == b.subrange(0, i as int),
            decreases end - i,
        {
            buf.set(i, bytes[i]);
            proof {
                assert(buf@.subrange(0, i + 1) =~= b.subrange(0, i + 1));
            }
            i = i + 1;
        }
        proof {
            assert(valid_utf8(b.subrange(0, end as int)));
        }
        FixedByteArray { buf, len: end }
    }

    /// The bytes in use, as a string slice.
    pub fn as_str(&self) -> (r: &str)
        ensures
            r.spec_bytes() == self.used_bytes(),
    {
        proof {
            use_type_invariant(self);
        }
        let used = &self.buf.as_slice()[0..self.len];
        match str_from_utf8(used) {
            Ok(text) => text,
            Err(_) => {
                proof {
                    assert(false);
                }
                ""
            },
        }
    }

    /// The number of bytes in use.
    pub fn len(&self) -> (r: usize)
        ensures
            r == self.used_bytes().len(),
    {
        proof {
            use_type_invariant(self);
        }
        self.len
    }

    /// The number of bytes the array holds.
    pub fn capacity(&self) -> (r: usize)
        ensures
            r == CAPACITY,
    {
        CAPACITY
    }
}

} // verus!
