//! Fixed-capacity text, held in `heapless::String` buffers of
//! `MAX_PIN_LENGTH` bytes as the display lines use them. The buffer is
//! opaque to the verifier; `text_chars` names the characters it holds, and
//! the trusted wrappers below state what each call does to them. All text
//! stored through these wrappers is ASCII, so its byte length equals its
//! character count and the capacity bound can be stated over characters.

use vstd::prelude::*;

verus! {

/// Capacity of a line buffer and upper bound on the PIN length, in bytes.
pub const MAX_PIN_LENGTH: usize = 50;

/// Whether every character of `s` is ASCII. An ASCII character occupies
/// exactly one byte in a UTF-8 buffer.
pub open spec fn seq_is_ascii(s: Seq<char>) -> bool {
    forall|i: int| 0 <= i < s.len() ==> #[trigger] (s[i] as u32) < 128
}

#[verifier::external_type_specification]
#[verifier::external_body]
pub struct ExHeaplessString<const N: usize>(heapless::String<N>);

/// The characters that a fixed-capacity text buffer holds, in order.
pub uninterp spec fn text_chars(s: heapless::String<50>) -> Seq<char>;

/// Relies on heapless::String::new: a freshly constructed string is empty.
#[verifier::external_body]
pub(crate) fn text_new() -> (r: heapless::String<50>)
    ensures
        text_chars(r) == Seq::<char>::empty(),
{
    heapless::String::new()
}

/// Relies on heapless::String::push: appends the character when enough of
/// the byte capacity remains; an ASCII character occupies one byte, so an
/// ASCII string of fewer than `MAX_PIN_LENGTH` characters has room for one
/// more.
#[verifier::external_body]
pub(crate) fn text_push(s: &mut heapless::String<50>, c: char)
    requires
        text_chars(*old(s)).len() < MAX_PIN_LENGTH,
        seq_is_ascii(text_chars(*old(s))),
        (c as u32) < 128,
    ensures
        text_chars(*final(s)) == text_chars(*old(s)).push(c),
{
    let _ = s.push(c);
}

/// Relies on heapless's `From<&str>`: copies the argument's characters,
/// panicking only when they do not fit the byte capacity, which the bounds
/// required here rule out for ASCII text.
#[verifier::external_body]
pub(crate) fn text_from_str(s: &str) -> (r: heapless::String<50>)
    requires
        s@.len() <= MAX_PIN_LENGTH,
        seq_is_ascii(s@),
    ensures
        text_chars(r) == s@,
{
    heapless::String::from(s)
}

/// Relies on heapless::String::as_str: yields exactly the stored text.
#[verifier::external_body]
pub(crate) fn text_as_str(s: &heapless::String<50>) -> (r: &str)
    ensures
        r@ == text_chars(*s),
{
    s.as_str()
}

/// Relies on heapless's `Clone`: the copy holds the same characters.
#[verifier::external_body]
pub(crate) fn text_clone(s: &heapless::String<50>) -> (r: heapless::String<50>)
    ensures
        text_chars(r) == text_chars(*s),
{
    s.clone()
}

} // verus!
