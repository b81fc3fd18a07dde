//! An editable line of ASCII text with an insertion cursor.

use vstd::prelude::*;
use crate::error::{BufError, Error};
use crate::text::{lemma_ascii_boundary, lemma_ascii_byte_len, lemma_insert_bytes, lemma_remove_bytes, all_ascii, byte_len, str_byte_len, char_is_ascii, is_ascii_char, str_is_ascii, string_clear, string_insert, string_insert_str, string_remove, string_with_capacity};

verus! {

broadcast use vstd::utf8::is_ascii_chars_encode_utf8;

/// The default and largest capacity of an `AsciiString`.
pub const DEFAULT_MAX_CAPACITY: usize = 100;

/// Stored parts that make a valid buffer: a capacity no larger than the
/// default, a text that fits in it, is ASCII, and holds the cursor.
pub open spec fn valid_parts(text: Seq<char>, cursor: usize, capacity: usize) -> bool {
    &&& capacity <= DEFAULT_MAX_CAPACITY
    &&& byte_len(text) <= capacity
    &&& all_ascii(text)
    &&& cursor <= text.len()
}

/// The error with which stored parts are refused: the first check that
/// fails, in the order capacity, length, ASCII, cursor.
pub open spec fn refusal_of(e: Error, text: Seq<char>, cursor: usize, capacity: usize) -> bool {
    if capacity > DEFAULT_MAX_CAPACITY || byte_len(text) > capacity {
        e == Error::BufferError(BufError::BadCapacity(capacity))
    } else if !all_ascii(text) {
        e matches Error::BufferError(BufError::NonAsciiInsertStr(t)) && t@ == text
    } else {
        e == Error::BufferError(BufError::InsertPositionOutOfBounds(cursor))
    }
}

/// The text and cursor after inserting `ch`: `ch` at the cursor and the
/// cursor past it when `ch` is ASCII and the text is shorter than
/// `capacity`; unchanged otherwise.
pub open spec fn insert_ch_step(text: Seq<char>, cursor: usize, capacity: usize, ch: char) -> (Seq<char>, usize) {
    if is_ascii_char(ch) && text.len() < capacity {
        (text.insert(cursor as int, ch), (cursor + 1) as usize)
    } else {
        (text, cursor)
    }
}

/// The text and cursor after inserting `s`: `s` at the cursor and the
/// cursor past it when `s` is ASCII and the text with it fits `capacity`;
/// unchanged otherwise.
pub open spec fn insert_str_step(text: Seq<char>, cursor: usize, capacity: usize, s: Seq<char>) -> (Seq<char>, usize) {
    if all_ascii(s) && text.len() + s.len() <= capacity {
        (text.take(cursor as int) + s + text.skip(cursor as int), (cursor + s.len()) as usize)
    } else {
        (text, cursor)
    }
}

/// The first `i` characters of an ASCII text take `i` bytes.
proof fn lemma_ascii_prefix_bytes(s: Seq<char>, i: int)
    requires
        all_ascii(s),
        0 <= i <= s.len(),
    ensures
        byte_len(s.take(i)) == i,
{
    assert(all_ascii(s.take(i)));
    lemma_ascii_byte_len(s.take(i));
}

/// A line of text that is kept ASCII, with a cursor at which characters are
/// inserted and before which they are removed.
#[derive(Debug)]
pub struct AsciiString {
    /// Internal buffer
    buffer: String,
    /// Insert position into buffer
    cursor: usize,
    /// Buffer capacity
    capacity: usize,
}

impl Default for AsciiString {
    fn default() -> (r: Self)
        ensures
            r.text() == Seq::<char>::empty(),
            r.cursor_pos() == 0,
            r.capacity_limit() == DEFAULT_MAX_CAPACITY,
            r.wf(),
            r.valid(),
    {
        AsciiString {
            buffer: string_with_capacity(DEFAULT_MAX_CAPACITY),
            cursor: 0,
            capacity: DEFAULT_MAX_CAPACITY,
        }
    }
}

impl Clone for AsciiString {
    fn clone(&self) -> (r: Self)
        ensures
            r.text() == self.text(),
            r.cursor_pos() == self.cursor_pos(),
            r.capacity_limit() == self.capacity_limit(),
    {
        proof {
            use_type_invariant(self);
        }
        AsciiString { buffer: self.buffer.clone(), cursor: self.cursor, capacity: self.capacity }
    }
}

impl AsciiString {
    /// The text is ASCII and the cursor lies within it.
    #[verifier::type_invariant]
    spec fn inv(&self) -> bool {
        &&& all_ascii(self.buffer@)
        &&& self.cursor <= self.buffer@.len()
        &&& self.buffer@.len() <= self.capacity
    }

    /// Moves the text out, leaving an empty text with the cursor at the start.
    fn take_parts(&mut self) -> (r: (String, usize))
        ensures
            r.0@ == old(self).text(),
            r.1 == old(self).cursor_pos(),
            all_ascii(r.0@),
            r.1 <= r.0@.len(),
            final(self).capacity_limit() == old(self).capacity_limit(),
    {
        proof {
            use_type_invariant(&*self);
        }
        let cursor = self.cursor;
        self.cursor = 0;
        let mut buffer = String::new();
        std::mem::swap(&mut buffer, &mut self.buffer);
        (buffer, cursor)
    }

    /// Every `AsciiString` is well formed.
    pub fn well_formed(&self) -> (r: bool)
        ensures
            r,
            self.wf(),
    {
        proof {
            use_type_invariant(self);
        }
        true
    }

    /// The text held.
    pub closed spec fn text(&self) -> Seq<char> {
        self.buffer@
    }

    /// The cursor: the number of characters before the insertion point.
    pub closed spec fn cursor_pos(&self) -> usize {
        self.cursor
    }

    /// The capacity recorded with the text.
    pub closed spec fn capacity_limit(&self) -> usize {
        self.capacity
    }

    /// What every operation keeps: the text is ASCII, the cursor lies
    /// within it, and it is no longer than the capacity.
    pub open spec fn wf(&self) -> bool {
        &&& all_ascii(self.text())
        &&& self.cursor_pos() <= self.text().len()
        &&& self.text().len() <= self.capacity_limit()
    }

    /// The state that `validate_deserialization` accepts.
    pub open spec fn valid(&self) -> bool {
        valid_parts(self.text(), self.cursor_pos(), self.capacity_limit())
    }

    /// Assembles a buffer from its parts as they were stored, refused as
    /// `validate_deserialization` refuses a buffer that is not valid.
    pub fn try_from_parts(buffer: String, cursor: usize, capacity: usize) -> (r: Result<Self, Error>)
        ensures
            match r {
                Ok(a) => a.text() == buffer@ && a.cursor_pos() == cursor && a.capacity_limit()
                    == capacity && a.valid(),
                Err(e) => !valid_parts(buffer@, cursor, capacity) && refusal_of(
                    e,
                    buffer@,
                    cursor,
                    capacity,
                ),
            },
    {
        if capacity > DEFAULT_MAX_CAPACITY {
            return Err(Error::BufferError(BufError::BadCapacity(capacity)));
        }
        if str_byte_len(buffer.as_str()) > capacity {
            return Err(Error::BufferError(BufError::BadCapacity(capacity)));
        }
        if !str_is_ascii(buffer.as_str()) {
            return Err(Error::BufferError(BufError::NonAsciiInsertStr(buffer)));
        }
        if cursor > str_byte_len(buffer.as_str()) {
            return Err(Error::BufferError(BufError::InsertPositionOutOfBounds(cursor)));
        }
        Ok(AsciiString { buffer, cursor, capacity })
    }

    /// Validates internal state; call after deserializing.
    pub fn validate_deserialization(&self) -> (r: Result<(), Error>)
        ensures
            r is Ok <==> self.valid(),
            self.capacity_limit() > DEFAULT_MAX_CAPACITY ==> r == Err::<(), Error>(
                Error::BufferError(BufError::BadCapacity(self.capacity_limit())),
            ),
            self.capacity_limit() <= DEFAULT_MAX_CAPACITY && byte_len(self.text())
                > self.capacity_limit() ==> r == Err::<(), Error>(
                Error::BufferError(BufError::BadCapacity(self.capacity_limit())),
            ),
            self.capacity_limit() <= DEFAULT_MAX_CAPACITY && byte_len(self.text())
                <= self.capacity_limit() && !all_ascii(self.text()) ==> (r matches Err(
                Error::BufferError(BufError::NonAsciiInsertStr(s)),
            ) && s@ == self.text()),
            self.capacity_limit() <= DEFAULT_MAX_CAPACITY && byte_len(self.text())
                <= self.capacity_limit() && all_ascii(self.text()) && self.cursor_pos()
                > self.text().len() ==> r == Err::<(), Error>(
                Error::BufferError(BufError::InsertPositionOutOfBounds(self.cursor_pos())),
            ),
    {
        // Check invariant 1: capacity is less than or equal to the defined max.
        if self.capacity > DEFAULT_MAX_CAPACITY {
            return Err(Error::BufferError(BufError::BadCapacity(self.capacity)));
        }
        // Check invariant 2: buffer length is less than or equal to the capacity.
        if str_byte_len(self.buffer.as_str()) > self.capacity {
            return Err(Error::BufferError(BufError::BadCapacity(self.capacity)));
        }
        // Check invariant 3: buffer is ascii.
        if !str_is_ascii(self.buffer.as_str()) {
            return Err(Error::BufferError(BufError::NonAsciiInsertStr(self.buffer.clone())));
        }
        // Check invariant 4: cursor position is less than or equal to collection length.
        if self.cursor > str_byte_len(self.buffer.as_str()) {
            return Err(Error::BufferError(BufError::InsertPositionOutOfBounds(self.cursor)));
        }
        Ok(())
    }

    /// Inserts an ASCII character at the cursor and advances the cursor by
    /// one, while the text is shorter than the capacity; a non-ASCII
    /// character is refused.
    pub fn insert_ascii_ch(&mut self, ch: char) -> (r: Result<(), BufError>)
        ensures
            final(self).wf(),
            final(self).capacity_limit() == old(self).capacity_limit(),
            !is_ascii_char(ch) ==> r == Err::<(), BufError>(BufError::NonAsciiInsertCh(ch)),
            is_ascii_char(ch) ==> r is Ok,
            (final(self).text(), final(self).cursor_pos()) == insert_ch_step(
                old(self).text(),
                old(self).cursor_pos(),
                old(self).capacity_limit(),
                ch,
            ),
    {
        proof {
            use_type_invariant(&*self);
        }
        if !char_is_ascii(ch) {
            return Err(BufError::NonAsciiInsertCh(ch));
        }
        if str_byte_len(self.buffer.as_str()) < self.capacity {
            let (mut buffer, cursor) = self.take_parts();
            let ghost before = buffer@;
            proof {
                lemma_ascii_boundary(before, cursor as int);
                lemma_ascii_prefix_bytes(before, cursor as int);
            }
            string_insert(&mut buffer, cursor, ch);
            proof {
                lemma_insert_bytes(before, cursor as int, ch, buffer@);
            }
            *self = AsciiString { buffer, cursor: cursor + 1, capacity: self.capacity };
        }
        Ok(())
    }

    /// Removes the character before the cursor and moves the cursor back by
    /// one; with the cursor at the start nothing happens.
    pub fn remove_ch(&mut self)
        ensures
            final(self).wf(),
            final(self).capacity_limit() == old(self).capacity_limit(),
            old(self).cursor_pos() == 0 ==> *final(self) == *old(self),
            old(self).cursor_pos() > 0 ==> {
                &&& final(self).text() == old(self).text().remove(old(self).cursor_pos() - 1)
                &&& final(self).cursor_pos() == old(self).cursor_pos() - 1
            },
    {
        proof {
            use_type_invariant(&*self);
        }
        if self.cursor == 0 {
            return;
        }
        let (mut buffer, cursor) = self.take_parts();
        let ghost before = buffer@;
        proof {
            lemma_ascii_boundary(before, cursor - 1);
            lemma_ascii_prefix_bytes(before, cursor - 1);
            lemma_ascii_byte_len(before);
        }
        let _ = string_remove(&mut buffer, cursor - 1);
        proof {
            lemma_remove_bytes(before, cursor - 1, buffer@);
        }
        *self = AsciiString { buffer, cursor: cursor - 1, capacity: self.capacity };
    }

    /// Inserts an ASCII string at the cursor and advances the cursor past it,
    /// when the text with it still fits the capacity; a non-ASCII string is
    /// refused.
    pub fn insert_ascii_str(&mut self, s: &str) -> (r: Result<(), BufError>)
        ensures
            final(self).wf(),
            final(self).capacity_limit() == old(self).capacity_limit(),
            !all_ascii(s@) ==> (r matches Err(BufError::NonAsciiInsertStr(t)) && t@ == s@),
            all_ascii(s@) ==> r is Ok,
            (final(self).text(), final(self).cursor_pos()) == insert_str_step(
                old(self).text(),
                old(self).cursor_pos(),
                old(self).capacity_limit(),
                s@,
            ),
    {
        proof {
            use_type_invariant(&*self);
        }
        if !str_is_ascii(s) {
            return Err(BufError::NonAsciiInsertStr(s.to_owned()));
        }
        let len = str_byte_len(self.buffer.as_str());
        let n = str_byte_len(s);
        if n <= self.capacity - len {
            let (mut buffer, cursor) = self.take_parts();
            string_insert_str(&mut buffer, cursor, s);
            proof {
                vstd::utf8::is_ascii_chars_concat(
                    buffer@,
                    old(self).buffer@.take(old(self).cursor as int) + s@,
                    old(self).buffer@.skip(old(self).cursor as int),
                );
                vstd::utf8::is_ascii_chars_concat(
                    old(self).buffer@.take(old(self).cursor as int) + s@,
                    old(self).buffer@.take(old(self).cursor as int),
                    s@,
                );
            }
            *self = AsciiString { buffer, cursor: cursor + n, capacity: self.capacity };
        }
        Ok(())
    }

    /// Clears the buffer and sets the cursor to 0.
    pub fn clear(&mut self)
        ensures
            final(self).text() == Seq::<char>::empty(),
            final(self).cursor_pos() == 0,
            final(self).capacity_limit() == old(self).capacity_limit(),
            final(self).wf(),
    {
        let (mut buffer, _cursor) = self.take_parts();
        string_clear(&mut buffer);
        *self = AsciiString { buffer, cursor: 0, capacity: self.capacity };
    }

    pub fn as_str(&self) -> (r: &str)
        ensures
            r@ == self.text(),
    {
        self.buffer.as_str()
    }

    pub fn chars(&self) -> (r: std::str::Chars<'_>)
        ensures
            vstd::std_specs::iter::IteratorSpec::remaining(&r) == self.text(),
    {
        broadcast use vstd::string::axiom_spec_iter;
        self.buffer.as_str().chars()
    }

    pub fn is_empty(&self) -> (r: bool)
        ensures
            r == (self.text().len() == 0),
    {
        self.buffer.as_str().is_empty()
    }

    /// Increments the cursor by 1, clamped by the buffer length.
    pub fn inc_cursor(&mut self)
        ensures
            final(self).wf(),
            final(self).text() == old(self).text(),
            final(self).capacity_limit() == old(self).capacity_limit(),
            final(self).cursor_pos() == if old(self).cursor_pos() < old(self).text().len() {
                old(self).cursor_pos() + 1
            } else {
                old(self).cursor_pos() as int
            },
    {
        proof {
            use_type_invariant(&*self);
        }
        if self.cursor < str_byte_len(self.buffer.as_str()) {
            self.cursor = self.cursor + 1;
        }
    }

    /// Decrements the cursor by 1, stopping at 0.
    pub fn dec_cursor(&mut self)
        ensures
            final(self).wf(),
            final(self).text() == old(self).text(),
            final(self).capacity_limit() == old(self).capacity_limit(),
            final(self).cursor_pos() == if old(self).cursor_pos() > 0 {
                old(self).cursor_pos() - 1
            } else {
                0
            },
    {
        proof {
            use_type_invariant(&*self);
        }
        self.cursor = self.cursor.saturating_sub(1);
    }

    pub fn cursor(&self) -> (r: usize)
        ensures
            r == self.cursor_pos(),
    {
        self.cursor
    }

    pub fn capacity(&self) -> (r: usize)
        ensures
            r == self.capacity_limit(),
    {
        self.capacity
    }
}

/// Inserting an ASCII character while there is room, and then removing the
/// one before the advanced cursor, gives back the text and the cursor.
pub proof fn law_insert_then_remove(text: Seq<char>, cursor: usize, capacity: usize, ch: char)
    requires
        cursor <= text.len() < capacity,
        is_ascii_char(ch),
    ensures
        ({
            let (t, k) = insert_ch_step(text, cursor, capacity, ch);
            &&& k == cursor + 1
            &&& t.remove(k - 1) == text
        }),
{
    assert(text.insert(cursor as int, ch).remove(cursor as int) =~= text);
}

/// Inserting an ASCII text that fits, and then removing as many characters
/// before the advanced cursor, gives back the text.
pub proof fn law_insert_str_then_remove(text: Seq<char>, cursor: usize, capacity: usize, s: Seq<char>)
    requires
        cursor <= text.len(),
        text.len() + s.len() <= capacity,
        all_ascii(s),
    ensures
        ({
            let (t, k) = insert_str_step(text, cursor, capacity, s);
            &&& k == cursor + s.len()
            &&& t.take(cursor as int) + t.skip(k as int) == text
        }),
{
    let t = text.take(cursor as int) + s + text.skip(cursor as int);
    assert(t.take(cursor as int) =~= text.take(cursor as int));
    assert(t.skip(cursor + s.len()) =~= text.skip(cursor as int));
    assert(text.take(cursor as int) + text.skip(cursor as int) =~= text);
}

/// An insertion never takes the text past the capacity.
pub proof fn law_insert_within_capacity(text: Seq<char>, cursor: usize, capacity: usize, ch: char, s: Seq<char>)
    requires
        cursor <= text.len() <= capacity,
    ensures
        insert_ch_step(text, cursor, capacity, ch).0.len() <= capacity,
        insert_str_step(text, cursor, capacity, s).0.len() <= capacity,
{
}

} // verus!
