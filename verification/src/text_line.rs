//! A line of text being edited: its model, the keys that edit it, and the
//! window of it that is shown.

use vstd::prelude::*;
use crate::key::{EventState, Key};
use crate::scroll::Scroll;
use crate::text::{str_byte_len, string_insert, string_remove, string_with_capacity};
use vstd::utf8::{decode_utf8, encode_utf8, is_char_boundary, pop_first_scalar};

verus! {

/// The directions the cursor moves in.
#[derive(Debug, Clone, Copy, PartialEq, Eq, Structural)]
pub enum MoveDirection {
    Left,
    Right,
}

/// Edits of a text line.
#[derive(Debug, Clone, Copy, PartialEq, Eq, Structural)]
pub enum TextLineEvent {
    InsertCharacter(char),
    MoveCursor(MoveDirection),
    RemoveCharacter,
}

/// The most bytes a text line takes.
pub const TEXT_LINE_CAPACITY: usize = 100;

/// A line of text with a cursor, a position in its bytes.
#[derive(Debug)]
pub struct TextLineModel {
    buffer: String,
    capacity: usize,
    cursor: usize,
}

/// The bytes, cursor and answer after `event`: the bytes of a character put
/// at the cursor and the cursor one byte on, while the text takes fewer
/// bytes than the capacity; a move of the cursor by one byte within the
/// text; or, with the cursor one byte back, the removal of the character
/// whose bytes start there. `false` and nothing changed when the edit
/// cannot be made.
pub open spec fn text_line_step(bytes: Seq<u8>, cursor: usize, event: TextLineEvent) -> (Seq<u8>, usize, bool) {
    match event {
        TextLineEvent::InsertCharacter(c) => if bytes.len() < TEXT_LINE_CAPACITY {
            (
                bytes.take(cursor as int) + encode_utf8(seq![c]) + bytes.skip(cursor as int),
                (cursor + 1) as usize,
                true,
            )
        } else {
            (bytes, cursor, false)
        },
        TextLineEvent::MoveCursor(MoveDirection::Left) => if bytes.len() > 0 && cursor > 0 {
            (bytes, (cursor - 1) as usize, true)
        } else {
            (bytes, cursor, false)
        },
        TextLineEvent::MoveCursor(MoveDirection::Right) => if bytes.len() > 0 && cursor
            < bytes.len() {
            (bytes, (cursor + 1) as usize, true)
        } else {
            (bytes, cursor, false)
        },
        TextLineEvent::RemoveCharacter => if bytes.len() == 0 || cursor == 0 {
            (bytes, cursor, false)
        } else {
            (
                bytes.take(cursor - 1) + pop_first_scalar(bytes.skip(cursor - 1)),
                (cursor - 1) as usize,
                true,
            )
        },
    }
}

/// The edits that can be made without a panic of the string: an insertion
/// and a removal need a character boundary at the byte where they act.
pub open spec fn text_line_event_ok(bytes: Seq<u8>, cursor: usize, event: TextLineEvent) -> bool {
    match event {
        TextLineEvent::InsertCharacter(_) => bytes.len() < TEXT_LINE_CAPACITY ==> is_char_boundary(
            bytes,
            cursor as int,
        ),
        TextLineEvent::RemoveCharacter => (bytes.len() > 0 && cursor > 0) ==> is_char_boundary(
            bytes,
            cursor - 1,
        ),
        TextLineEvent::MoveCursor(_) => true,
    }
}

/// Inserting a character at a character boundary while there is room, and
/// then removing before the cursor, gives back the bytes and the cursor.
pub proof fn law_text_line_insert_remove(text: Seq<char>, cursor: usize, c: char)
    requires
        is_char_boundary(encode_utf8(text), cursor as int),
        encode_utf8(text).len() < TEXT_LINE_CAPACITY,
    ensures
        ({
            let bytes = encode_utf8(text);
            let (b1, k1, done1) = text_line_step(bytes, cursor, TextLineEvent::InsertCharacter(c));
            let (b2, k2, done2) = text_line_step(b1, k1, TextLineEvent::RemoveCharacter);
            &&& text_line_event_ok(b1, k1, TextLineEvent::RemoveCharacter)
            &&& done1 && done2 && b2 == bytes && k2 == cursor
        }),
{
    let bytes = encode_utf8(text);
    let k = cursor as int;
    vstd::utf8::encode_utf8_valid_utf8(text);
    vstd::utf8::valid_utf8_split(bytes, k);
    let rest = bytes.skip(k);
    assert(rest =~= bytes.subrange(k, bytes.len() as int));
    assert(bytes.take(k) =~= bytes.subrange(0, k));
    let d = decode_utf8(rest);
    vstd::utf8::decode_utf8_encode_utf8(rest);
    let one = seq![c];
    assert(one[0] == c);
    assert(one.drop_first() =~= Seq::<char>::empty());
    assert(encode_utf8(Seq::<char>::empty()) =~= Seq::<u8>::empty());
    let ec = encode_utf8(one);
    assert(ec =~= vstd::utf8::encode_scalar(c as u32));
    crate::text::lemma_encode_concat(one, d);
    vstd::utf8::encode_utf8_first_scalar(one + d);
    assert((one + d)[0] == c);
    let tail = ec + rest;
    assert(tail == encode_utf8(one + d));
    vstd::utf8::encode_utf8_valid_utf8(one + d);
    assert(pop_first_scalar(tail) =~= rest);
    let b1 = bytes.take(k) + ec + rest;
    assert(b1 =~= bytes.take(k) + tail);
    assert(b1.skip(k) =~= tail);
    assert(b1.take(k) =~= bytes.take(k));
    assert(bytes.take(k) + rest =~= bytes);
    // The inserted character starts at a character boundary of the new bytes.
    vstd::utf8::valid_utf8_concat(bytes.take(k), tail);
    crate::text::lemma_byte_len_at_least_chars(one);
    assert(b1[k] == tail[0]);
    vstd::utf8::is_char_boundary_iff_not_is_continuation_byte(b1, k);
}

/// Moving the cursor left and then right, when it can move left, brings it
/// back; the bytes do not change.
pub proof fn law_text_line_left_right(bytes: Seq<u8>, cursor: usize)
    requires
        0 < cursor <= bytes.len(),
    ensures
        ({
            let (b1, k1, _) = text_line_step(bytes, cursor, TextLineEvent::MoveCursor(MoveDirection::Left));
            let (b2, k2, _) = text_line_step(b1, k1, TextLineEvent::MoveCursor(MoveDirection::Right));
            b2 == bytes && k2 == cursor
        }),
{
}

impl TextLineModel {
    /// The cursor lies within the bytes of the text.
    #[verifier::type_invariant]
    spec fn inv(&self) -> bool {
        self.cursor <= encode_utf8(self.buffer@).len()
    }

    pub closed spec fn text(&self) -> Seq<char> {
        self.buffer@
    }

    /// The UTF-8 bytes of the text.
    pub open spec fn bytes(&self) -> Seq<u8> {
        encode_utf8(self.text())
    }

    pub closed spec fn cursor_pos(&self) -> usize {
        self.cursor
    }

    pub closed spec fn capacity_value(&self) -> usize {
        self.capacity
    }

    /// Applies `event`; returns whether the edit was made. An insertion or
    /// removal must act at a character boundary, or the string panics.
    pub fn handle_event(&mut self, event: TextLineEvent) -> (r: bool)
        requires
            text_line_event_ok(old(self).bytes(), old(self).cursor_pos(), event),
        ensures
            (final(self).bytes(), final(self).cursor_pos(), r) == text_line_step(
                old(self).bytes(),
                old(self).cursor_pos(),
                event,
            ),
            final(self).capacity_value() == old(self).capacity_value(),
            final(self).cursor_pos() <= final(self).bytes().len(),
    {
        proof {
            use_type_invariant(&*self);
        }
        let r = match event {
            TextLineEvent::InsertCharacter(c) => self.insert_invariant(c),
            TextLineEvent::MoveCursor(dir) => self.move_invariant(dir),
            TextLineEvent::RemoveCharacter => self.remove_invariant(),
        };
        proof {
            use_type_invariant(&*self);
        }
        r
    }

    /// Moves the cursor by one byte within the text; returns whether it moved.
    fn move_invariant(&mut self, dir: MoveDirection) -> (r: bool)
        ensures
            (final(self).bytes(), final(self).cursor_pos(), r) == text_line_step(
                old(self).bytes(),
                old(self).cursor_pos(),
                TextLineEvent::MoveCursor(dir),
            ),
            final(self).capacity_value() == old(self).capacity_value(),
    {
        proof {
            use_type_invariant(&*self);
        }
        let len = str_byte_len(self.buffer.as_str());
        if len == 0 {
            false
        } else {
            match dir {
                MoveDirection::Left => {
                    if self.cursor > 0 {
                        self.cursor = self.cursor - 1;
                        true
                    } else {
                        false
                    }
                },
                MoveDirection::Right => {
                    if self.cursor < len {
                        self.cursor = self.cursor + 1;
                        true
                    } else {
                        false
                    }
                },
            }
        }
    }

    /// Moves the text out, leaving an empty text with the cursor at the start.
    fn take_parts(&mut self) -> (r: (String, usize))
        ensures
            r.0@ == old(self).text(),
            r.1 == old(self).cursor_pos(),
            r.1 <= encode_utf8(r.0@).len(),
            final(self).capacity_value() == old(self).capacity_value(),
    {
        proof {
            use_type_invariant(&*self);
        }
        let cursor = self.cursor;
        self.cursor = 0;
        let mut buffer = String::new();
        std::mem::swap(&mut buffer, &mut self.buffer);
        (buffer, cursor)
    }

    /// Inserts `c` at the cursor while the text takes fewer bytes than the
    /// capacity, and moves the cursor one byte on; returns whether it did.
    fn insert_invariant(&mut self, c: char) -> (r: bool)
        requires
            text_line_event_ok(old(self).bytes(), old(self).cursor_pos(), TextLineEvent::InsertCharacter(c)),
        ensures
            (final(self).bytes(), final(self).cursor_pos(), r) == text_line_step(
                old(self).bytes(),
                old(self).cursor_pos(),
                TextLineEvent::InsertCharacter(c),
            ),
            final(self).capacity_value() == old(self).capacity_value(),
    {
        proof {
            use_type_invariant(&*self);
        }
        if str_byte_len(self.buffer.as_str()) < TEXT_LINE_CAPACITY {
            let (mut buffer, cursor) = self.take_parts();
            string_insert(&mut buffer, cursor, c);
            proof {
                crate::text::lemma_byte_len_at_least_chars(seq![c]);
            }
            *self = TextLineModel { buffer, capacity: self.capacity, cursor: cursor + 1 };
            true
        } else {
            false
        }
    }

    /// Moves the cursor one byte back and removes the character whose bytes
    /// start there; returns whether it did.
    fn remove_invariant(&mut self) -> (r: bool)
        requires
            text_line_event_ok(old(self).bytes(), old(self).cursor_pos(), TextLineEvent::RemoveCharacter),
        ensures
            (final(self).bytes(), final(self).cursor_pos(), r) == text_line_step(
                old(self).bytes(),
                old(self).cursor_pos(),
                TextLineEvent::RemoveCharacter,
            ),
            final(self).capacity_value() == old(self).capacity_value(),
    {
        proof {
            use_type_invariant(&*self);
        }
        if self.buffer.as_str().is_empty() || self.cursor == 0 {
            false
        } else {
            let (mut buffer, cursor) = self.take_parts();
            let _ = string_remove(&mut buffer, cursor - 1);
            *self = TextLineModel { buffer, capacity: self.capacity, cursor: cursor - 1 };
            true
        }
    }

    /// The text.
    pub fn buffer(&self) -> (r: &str)
        ensures
            r@ == self.text(),
    {
        self.buffer.as_str()
    }

    /// The length of the text in bytes.
    pub fn len(&self) -> (r: usize)
        ensures
            r == self.bytes().len(),
    {
        str_byte_len(self.buffer.as_str())
    }

    pub fn is_empty(&self) -> (r: bool)
        ensures
            r == (self.bytes().len() == 0),
    {
        self.buffer.as_str().is_empty()
    }

    pub fn capacity(&self) -> (r: usize)
        ensures
            r == self.capacity_value(),
    {
        self.capacity
    }

    /// The cursor, a byte position.
    pub fn cursor(&self) -> (r: usize)
        ensures
            r == self.cursor_pos(),
            r <= self.bytes().len(),
    {
        proof {
            use_type_invariant(self);
        }
        self.cursor
    }
}

impl Default for TextLineModel {
    fn default() -> (r: Self)
        ensures
            r.text() == Seq::<char>::empty(),
            r.cursor_pos() == 0,
            r.capacity_value() == TEXT_LINE_CAPACITY,
    {
        TextLineModel {
            buffer: string_with_capacity(TEXT_LINE_CAPACITY),
            capacity: TEXT_LINE_CAPACITY,
            cursor: 0,
        }
    }
}

/// The edit that a key stands for in a text line.
pub open spec fn text_line_event_of(key: Key) -> Option<TextLineEvent> {
    match key {
        Key::Left => Some(TextLineEvent::MoveCursor(MoveDirection::Left)),
        Key::Right => Some(TextLineEvent::MoveCursor(MoveDirection::Right)),
        Key::Char(c) => Some(TextLineEvent::InsertCharacter(c)),
        Key::Backspace => Some(TextLineEvent::RemoveCharacter),
        _ => None,
    }
}

/// Maps keys to edits of a text line.
#[derive(Debug, Default, Clone, Copy)]
pub struct TextLineController;

impl TextLineController {
    pub fn handle_key_event(&self, key: Key) -> (r: Option<TextLineEvent>)
        ensures
            r == text_line_event_of(key),
    {
        match key {
            Key::Left => Some(TextLineEvent::MoveCursor(MoveDirection::Left)),
            Key::Right => Some(TextLineEvent::MoveCursor(MoveDirection::Right)),
            Key::Char(c) => Some(TextLineEvent::InsertCharacter(c)),
            Key::Backspace => Some(TextLineEvent::RemoveCharacter),
            _ => None,
        }
    }
}

/// How the text is placed on its line.
#[derive(Debug, Clone, Copy, PartialEq, Eq, Structural)]
pub enum LineAlignment {
    Left,
    Right,
    Center,
}

/// The window of a text line that is shown.
#[derive(Debug)]
pub struct TextLineView {
    pub len: u16,
    pub height: u16,
    pub alignment: LineAlignment,
    pub scroll: Scroll,
}

impl Default for TextLineView {
    fn default() -> (r: Self)
        ensures
            r.len == 0,
            r.height == 0,
            r.alignment == LineAlignment::Left,
            r.scroll.view_start() == 0,
            r.scroll.view_count() == 0,
    {
        TextLineView { len: 0, height: 0, alignment: LineAlignment::Left, scroll: Scroll::new() }
    }
}

impl TextLineView {
    /// Takes the size of the area to draw in and returns the index of the
    /// first character shown, so that the cursor is in view.
    pub fn layout(&mut self, width: u16, height: u16, model: &TextLineModel) -> (r: usize)
        ensures
            final(self).len == width,
            final(self).height == height,
            final(self).alignment == old(self).alignment,
            r <= model.bytes().len(),
            width > 0 ==> r <= model.cursor_pos() < r + width,
            r == crate::scroll::next_start(
                old(self).scroll.view_start(),
                old(self).scroll.view_count(),
                width as usize,
                model.cursor_pos(),
            ),
    {
        if self.len != width {
            self.len = width;
        }
        if self.height != height {
            self.height = height;
        }
        let cursor = model.cursor();
        self.scroll.calc_start(self.len as usize, cursor)
    }
}

/// A text line with its keys and its view.
#[derive(Debug)]
pub struct TextLineComponent {
    model: TextLineModel,
    controller: TextLineController,
    view: TextLineView,
}

impl TextLineComponent {
    pub closed spec fn model_view(&self) -> (Seq<char>, usize) {
        (self.model.text(), self.model.cursor_pos())
    }

    /// Applies the edit that `key` stands for; an insertion or removal must
    /// act at a character boundary, or the string panics.
    pub fn handle_key_event(&mut self, key: Key) -> (r: EventState)
        requires
            text_line_event_of(key) matches Some(e) ==> text_line_event_ok(
                encode_utf8(old(self).model_view().0),
                old(self).model_view().1,
                e,
            ),
        ensures
            match text_line_event_of(key) {
                Some(e) => r == EventState::Consumed && {
                    let (t, c, _) = text_line_step(encode_utf8(old(self).model_view().0), old(self).model_view().1, e);
                    encode_utf8(final(self).model_view().0) == t && final(self).model_view().1 == c
                },
                None => r == EventState::NotConsumed && final(self).model_view() == old(self).model_view(),
            },
    {
        let action = self.controller.handle_key_event(key);
        if let Some(a) = action {
            let _ = self.model.handle_event(a);
            EventState::Consumed
        } else {
            EventState::NotConsumed
        }
    }

    pub fn model(&self) -> (r: &TextLineModel)
        ensures
            (r.text(), r.cursor_pos()) == self.model_view(),
    {
        &self.model
    }

    /// The view and the model, for drawing.
    pub fn view_and_model(&mut self) -> (r: (&mut TextLineView, &TextLineModel))
        ensures
            (r.1.text(), r.1.cursor_pos()) == old(self).model_view(),
            final(self).model_view() == old(self).model_view(),
    {
        (&mut self.view, &self.model)
    }
}

impl Default for TextLineComponent {
    fn default() -> (r: Self)
        ensures
            r.model_view() == (Seq::<char>::empty(), 0usize),
    {
        TextLineComponent {
            model: TextLineModel::default(),
            controller: TextLineController,
            view: TextLineView::default(),
        }
    }
}

} // verus!
