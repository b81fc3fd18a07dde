//! Character classes and the few `String` operations of std that the library
//! needs and that vstd gives no specification for.

use vstd::prelude::*;
use vstd::utf8::encode_utf8;

verus! {

/// ASCII characters: code points below 128.
pub open spec fn is_ascii_char(c: char) -> bool {
    '\0' <= c <= '\u{7f}'
}

/// ASCII letters `A`..`Z` and `a`..`z`.
pub open spec fn is_ascii_alpha(c: char) -> bool {
    (65 <= (c as u32) <= 90) || (97 <= (c as u32) <= 122)
}

/// ASCII digits `0`..`9`.
pub open spec fn is_ascii_digit_char(c: char) -> bool {
    48 <= (c as u32) <= 57
}

/// The characters with the Unicode `White_Space` property, which is what
/// `char::is_whitespace` tests.
pub open spec fn is_white_space(c: char) -> bool {
    let u = c as u32;
    (9 <= u <= 13) || u == 32 || u == 0x85 || u == 0xa0 || u == 0x1680 || (0x2000 <= u <= 0x200a)
        || u == 0x2028 || u == 0x2029 || u == 0x202f || u == 0x205f || u == 0x3000
}

/// The length in bytes of the UTF-8 encoding of `s`.
pub open spec fn byte_len(s: Seq<char>) -> nat {
    vstd::utf8::encode_utf8(s).len()
}

/// Every character takes at least one byte.
pub proof fn lemma_byte_len_at_least_chars(s: Seq<char>)
    ensures
        byte_len(s) >= s.len(),
    decreases s.len(),
{
    if s.len() > 0 {
        lemma_byte_len_at_least_chars(s.drop_first());
        let e = vstd::utf8::encode_scalar(s[0] as u32);
        assert(e.len() >= 1);
    }
}

/// The bytes of two texts one after the other are the bytes of each.
pub proof fn lemma_encode_concat(a: Seq<char>, b: Seq<char>)
    ensures
        encode_utf8(a + b) == encode_utf8(a) + encode_utf8(b),
    decreases a.len(),
{
    if a.len() == 0 {
        assert(a + b =~= b);
        assert(encode_utf8(a) + encode_utf8(b) =~= encode_utf8(b));
    } else {
        assert((a + b).drop_first() =~= a.drop_first() + b);
        assert((a + b)[0] == a[0]);
        lemma_encode_concat(a.drop_first(), b);
        assert(encode_utf8(a + b) =~= encode_utf8(a) + encode_utf8(b));
    }
}

/// Cutting a text after `i` characters cuts its bytes after the bytes of
/// those characters.
pub proof fn lemma_encode_split(s: Seq<char>, i: int)
    requires
        0 <= i <= s.len(),
    ensures
        encode_utf8(s).take(byte_len(s.take(i)) as int) == encode_utf8(s.take(i)),
        encode_utf8(s).skip(byte_len(s.take(i)) as int) == encode_utf8(s.skip(i)),
{
    assert(s =~= s.take(i) + s.skip(i));
    lemma_encode_concat(s.take(i), s.skip(i));
    let e = encode_utf8(s);
    assert(e.take(byte_len(s.take(i)) as int) =~= encode_utf8(s.take(i)));
    assert(e.skip(byte_len(s.take(i)) as int) =~= encode_utf8(s.skip(i)));
}

/// An ASCII text takes one byte per character.
pub proof fn lemma_ascii_byte_len(s: Seq<char>)
    requires
        all_ascii(s),
    ensures
        byte_len(s) == s.len(),
{
    vstd::utf8::is_ascii_chars_encode_utf8(s);
}

/// In an ASCII text every position is a character boundary of its bytes.
pub proof fn lemma_ascii_boundary(s: Seq<char>, i: int)
    requires
        all_ascii(s),
        0 <= i <= s.len(),
    ensures
        vstd::utf8::is_char_boundary(encode_utf8(s), i),
{
    vstd::utf8::is_ascii_chars_encode_utf8(s);
    vstd::utf8::encode_utf8_valid_utf8(s);
    vstd::utf8::is_char_boundary_start_end_of_seq(encode_utf8(s));
    if i < s.len() {
        vstd::utf8::is_char_boundary_iff_not_is_continuation_byte(encode_utf8(s), i);
        assert(s[i] as u8 == encode_utf8(s)[i]);
    }
}

/// The text whose bytes are those of `s` with the bytes of `c` put after the
/// first `i` characters is `s` with `c` inserted at `i`.
pub proof fn lemma_insert_bytes(s: Seq<char>, i: int, c: char, t: Seq<char>)
    requires
        0 <= i <= s.len(),
        encode_utf8(t) == encode_utf8(s).take(byte_len(s.take(i)) as int) + encode_utf8(seq![c])
            + encode_utf8(s).skip(byte_len(s.take(i)) as int),
    ensures
        t == s.insert(i, c),
{
    lemma_encode_split(s, i);
    lemma_encode_concat(s.take(i), seq![c]);
    lemma_encode_concat(s.take(i) + seq![c], s.skip(i));
    assert(s.insert(i, c) =~= s.take(i) + seq![c] + s.skip(i));
    vstd::utf8::encode_utf8_decode_utf8(t);
    vstd::utf8::encode_utf8_decode_utf8(s.insert(i, c));
}

/// The text whose bytes are those of `s` without the character that starts
/// after the first `i` characters is `s` with that character removed.
pub proof fn lemma_remove_bytes(s: Seq<char>, i: int, t: Seq<char>)
    requires
        0 <= i < s.len(),
        encode_utf8(t) == encode_utf8(s).take(byte_len(s.take(i)) as int)
            + vstd::utf8::pop_first_scalar(encode_utf8(s).skip(byte_len(s.take(i)) as int)),
    ensures
        t == s.remove(i),
{
    lemma_encode_split(s, i);
    let rest = s.skip(i);
    vstd::utf8::encode_utf8_first_scalar(rest);
    assert(vstd::utf8::pop_first_scalar(encode_utf8(rest)) =~= encode_utf8(rest.drop_first()));
    assert(s.remove(i) =~= s.take(i) + rest.drop_first());
    lemma_encode_concat(s.take(i), rest.drop_first());
    vstd::utf8::encode_utf8_decode_utf8(t);
    vstd::utf8::encode_utf8_decode_utf8(s.remove(i));
}

/// `str::len`: the length of `s` in bytes, read from its byte slice.
pub fn str_byte_len(s: &str) -> (r: usize)
    ensures
        r == byte_len(s@),
{
    s.as_bytes().len()
}

pub open spec fn all_ascii(s: Seq<char>) -> bool {
    vstd::utf8::is_ascii_chars(s)
}

pub fn char_is_ascii(c: char) -> (r: bool)
    ensures
        r == is_ascii_char(c),
{
    c <= '\u{7f}'
}

pub fn char_is_ascii_alphabetic(c: char) -> (r: bool)
    ensures
        r == is_ascii_alpha(c),
{
    let u = c as u32;
    (65 <= u && u <= 90) || (97 <= u && u <= 122)
}

pub fn char_is_ascii_digit(c: char) -> (r: bool)
    ensures
        r == is_ascii_digit_char(c),
{
    let u = c as u32;
    48 <= u && u <= 57
}

pub fn char_is_whitespace(c: char) -> (r: bool)
    ensures
        r == is_white_space(c),
{
    let u = c as u32;
    (9 <= u && u <= 13) || u == 32 || u == 0x85 || u == 0xa0 || u == 0x1680 || (0x2000 <= u
        && u <= 0x200a) || u == 0x2028 || u == 0x2029 || u == 0x202f || u == 0x205f || u == 0x3000
}

/// The value of a digit character.
pub open spec fn digit_value(c: char) -> int {
    (c as u32) - 48
}

/// Whether every character of `s` is ASCII; a loop over `str::chars`.
pub fn str_is_ascii(s: &str) -> (r: bool)
    ensures
        r == all_ascii(s@),
{
    let n = s.unicode_len();
    let mut i: usize = 0;
    while i < n
        invariant
            n == s@.len(),
            i <= n,
            forall|j: int| 0 <= j < i ==> is_ascii_char(#[trigger] s@[j]),
        decreases n - i,
    {
        let c = s.get_char(i);
        if !char_is_ascii(c) {
            return false;
        }
        i = i + 1;
    }
    true
}

/// `String::with_capacity`: an empty string (its allocation is left unsaid).
#[verifier::external_body]
pub(crate) fn string_with_capacity(capacity: usize) -> (r: String)
    ensures
        r@ == Seq::<char>::empty(),
{
    String::with_capacity(capacity)
}

/// `String::insert`: inserts `c` at byte position `idx`, which must lie on
/// a character boundary (std panics otherwise); the bytes of `c` then stand
/// at `idx`, between the bytes before and after it.
#[verifier::external_body]
pub(crate) fn string_insert(s: &mut String, idx: usize, c: char)
    requires
        vstd::utf8::is_char_boundary(encode_utf8(old(s)@), idx as int),
    ensures
        encode_utf8(final(s)@) == encode_utf8(old(s)@).take(idx as int) + encode_utf8(seq![c])
            + encode_utf8(old(s)@).skip(idx as int),
{
    s.insert(idx, c)
}

/// `String::insert_str`: inserts `t` at byte position `idx` of an ASCII string.
#[verifier::external_body]
pub(crate) fn string_insert_str(s: &mut String, idx: usize, t: &str)
    requires
        all_ascii(old(s)@),
        idx <= old(s)@.len(),
    ensures
        final(s)@ == old(s)@.take(idx as int) + t@ + old(s)@.skip(idx as int),
{
    s.insert_str(idx, t)
}

/// `String::remove`: removes and returns the character whose bytes start at
/// byte position `idx`, which must lie on a character boundary before the
/// end (std panics otherwise).
#[verifier::external_body]
pub(crate) fn string_remove(s: &mut String, idx: usize) -> (c: char)
    requires
        vstd::utf8::is_char_boundary(encode_utf8(old(s)@), idx as int),
        idx < encode_utf8(old(s)@).len(),
    ensures
        encode_utf8(seq![c]) == vstd::utf8::take_first_scalar(encode_utf8(old(s)@).skip(idx as int)),
        encode_utf8(final(s)@) == encode_utf8(old(s)@).take(idx as int)
            + vstd::utf8::pop_first_scalar(encode_utf8(old(s)@).skip(idx as int)),
{
    s.remove(idx)
}

/// `String::clear`: empties the string.
#[verifier::external_body]
pub(crate) fn string_clear(s: &mut String)
    ensures
        final(s)@ == Seq::<char>::empty(),
{
    s.clear()
}

/// `String::push`: appends `c`.
#[verifier::external_body]
pub(crate) fn string_push(s: &mut String, c: char)
    ensures
        final(s)@ == old(s)@.push(c),
{
    s.push(c)
}

} // verus!

verus! {

/// The character of a decimal digit.
pub open spec fn digit_char(d: nat) -> char {
    if d == 0 {
        '0'
    } else if d == 1 {
        '1'
    } else if d == 2 {
        '2'
    } else if d == 3 {
        '3'
    } else if d == 4 {
        '4'
    } else if d == 5 {
        '5'
    } else if d == 6 {
        '6'
    } else if d == 7 {
        '7'
    } else if d == 8 {
        '8'
    } else {
        '9'
    }
}

/// The decimal digits of `n`, most significant first, without leading zeros.
pub open spec fn decimal(n: nat) -> Seq<char>
    decreases n,
{
    if n < 10 {
        seq![digit_char(n)]
    } else {
        decimal(n / 10).push(digit_char(n % 10))
    }
}

fn digit(d: usize) -> (r: char)
    requires
        d < 10,
    ensures
        r == digit_char(d as nat),
{
    if d == 0 {
        '0'
    } else if d == 1 {
        '1'
    } else if d == 2 {
        '2'
    } else if d == 3 {
        '3'
    } else if d == 4 {
        '4'
    } else if d == 5 {
        '5'
    } else if d == 6 {
        '6'
    } else if d == 7 {
        '7'
    } else if d == 8 {
        '8'
    } else {
        '9'
    }
}

/// Appends the decimal digits of `n`.
pub fn push_decimal(s: &mut String, n: usize)
    ensures
        final(s)@ == old(s)@ + decimal(n as nat),
    decreases n,
{
    if n >= 10 {
        push_decimal(s, n / 10);
    }
    string_push(s, digit(n % 10));
    proof {
        assert(old(s)@ + decimal(n as nat) =~= if n >= 10 {
            old(s)@ + decimal((n / 10) as nat) + seq![digit_char((n % 10) as nat)]
        } else {
            old(s)@ + seq![digit_char((n % 10) as nat)]
        });
    }
}

/// Appends the characters of `t`.
pub fn push_str(s: &mut String, t: &str)
    ensures
        final(s)@ == old(s)@ + t@,
{
    let n = t.unicode_len();
    let mut i: usize = 0;
    while i < n
        invariant
            n == t@.len(),
            i <= n,
            s@ == old(s)@ + t@.take(i as int),
        decreases n - i,
    {
        let c = t.get_char(i);
        string_push(s, c);
        proof {
            assert(t@.take(i + 1) =~= t@.take(i as int).push(c));
        }
        i = i + 1;
    }
    proof {
        assert(t@.take(n as int) =~= t@);
    }
}

/// A new string of the characters of `t`.
pub fn string_of(t: &str) -> (r: String)
    ensures
        r@ == t@,
{
    let mut s = String::new();
    push_str(&mut s, t);
    proof {
        assert(Seq::<char>::empty() + t@ =~= t@);
    }
    s
}

} // verus!

verus! {

/// What `str::to_lowercase` makes of a text: each character replaced by its
/// Unicode lowercase mapping.
pub uninterp spec fn lowercase(s: Seq<char>) -> Seq<char>;

/// `str::to_lowercase`: the text with every character lowercased; std's
/// Unicode tables decide the result, which depends on the text alone.
#[verifier::external_body]
pub(crate) fn str_to_lowercase(s: &str) -> (r: String)
    ensures
        r@ == lowercase(s@),
{
    s.to_lowercase()
}

/// Whether `needle` occurs in `hay` as a run of consecutive characters.
pub open spec fn occurs_in(hay: Seq<char>, needle: Seq<char>) -> bool {
    exists|i: int| 0 <= i && i + needle.len() <= hay.len() && #[trigger] hay.subrange(i, i + needle.len()) == needle
}

/// Whether `needle` occurs in `hay` at character `i`.
fn occurs_at(hay: &str, needle: &str, i: usize) -> (r: bool)
    requires
        i + needle@.len() <= hay@.len(),
    ensures
        r == (hay@.subrange(i as int, i + needle@.len()) == needle@),
{
    let n = hay.unicode_len();
    let m = needle.unicode_len();
    let mut j: usize = 0;
    while j < m
        invariant
            m == needle@.len(),
            n == hay@.len(),
            i + m <= hay@.len(),
            j <= m,
            forall|t: int| 0 <= t < j ==> hay@[i + t] == needle@[t],
        decreases m - j,
    {
        if hay.get_char(i + j) != needle.get_char(j) {
            proof {
                assert(hay@.subrange(i as int, i + m)[j as int] != needle@[j as int]);
            }
            return false;
        }
        j = j + 1;
    }
    proof {
        assert(hay@.subrange(i as int, i + m) =~= needle@);
    }
    true
}

/// `str::contains` for a text: whether `needle` occurs in `hay`.
pub fn str_contains(hay: &str, needle: &str) -> (r: bool)
    ensures
        r == occurs_in(hay@, needle@),
{
    let n = hay.unicode_len();
    let m = needle.unicode_len();
    if m > n {
        proof {
            assert forall|i: int| 0 <= i && i + needle@.len() <= hay@.len() implies #[trigger] hay@.subrange(i, i + needle@.len()) != needle@ by {}
        }
        return false;
    }
    if m == 0 {
        proof {
            assert(hay@.subrange(0int, 0int + needle@.len()) =~= needle@);
        }
        return true;
    }
    let mut i: usize = 0;
    while i <= n - m
        invariant
            n == hay@.len(),
            m == needle@.len(),
            0 < m <= n,
            i <= n - m + 1,
            forall|k: int| 0 <= k < i ==> #[trigger] hay@.subrange(k, k + m) != needle@,
        decreases n - m + 1 - i,
    {
        if occurs_at(hay, needle, i) {
            return true;
        }
        i = i + 1;
    }
    false
}

} // verus!
