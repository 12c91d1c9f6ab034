//! The bounded PIN buffer: an order-preserving sequence of characters with
//! append-one, delete-last and clear-all, never holding more than
//! `MAX_PIN_LENGTH` characters.

use vstd::prelude::*;
use crate::text::MAX_PIN_LENGTH;

verus! {

/// Bounded PIN character buffer. Mutated only by appending one character,
/// deleting the last, or clearing everything.
pub struct PinBuffer {
    chars: Vec<char>,
}

impl View for PinBuffer {
    type V = Seq<char>;

    closed spec fn view(&self) -> Seq<char> {
        self.chars@
    }
}

impl PinBuffer {
    /// The buffer never holds more than `MAX_PIN_LENGTH` characters.
    pub open spec fn wf(&self) -> bool {
        self@.len() <= MAX_PIN_LENGTH
    }

    pub fn new() -> (r: Self)
        ensures
            r@ == Seq::<char>::empty(),
            r.wf(),
    {
        PinBuffer { chars: Vec::new() }
    }

    pub fn len(&self) -> (n: usize)
        ensures
            n == self@.len(),
    {
        self.chars.len()
    }

    pub fn is_empty(&self) -> (b: bool)
        ensures
            b == (self@.len() == 0),
    {
        self.chars.len() == 0
    }

    pub fn is_full(&self) -> (b: bool)
        ensures
            b == (self@.len() >= MAX_PIN_LENGTH),
    {
        self.chars.len() >= MAX_PIN_LENGTH
    }

    /// Appends one character; callers guard the call with `is_full`.
    pub fn append(&mut self, c: char)
        requires
            old(self)@.len() < MAX_PIN_LENGTH,
        ensures
            final(self)@ == old(self)@.push(c),
    {
        self.chars.push(c);
    }

    /// Deletes the last character; does nothing on an empty buffer.
    pub fn delete_last(&mut self)
        ensures
            old(self)@.len() == 0 ==> final(self)@ == old(self)@,
            old(self)@.len() > 0 ==> final(self)@ == old(self)@.drop_last(),
    {
        if self.chars.len() > 0 {
            let _ = self.chars.pop();
        }
    }

    /// Empties the buffer.
    pub fn clear(&mut self)
        ensures
            final(self)@ == Seq::<char>::empty(),
    {
        self.chars.clear();
    }

    /// The character at position `i`.
    pub fn char_at(&self, i: usize) -> (c: char)
        requires
            i < self@.len(),
        ensures
            c == self@[i as int],
    {
        self.chars[i]
    }
}

} // verus!
