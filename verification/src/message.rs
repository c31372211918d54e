//! The 32-byte text buffer in which one line of the screen is composed.

use vstd::prelude::*;
use vstd::utf8::encode_utf8;

verus! {

/// The number of bytes that a message can hold.
pub const MESSAGE_CAPACITY: usize = 32;

/// `heapless::String`, a string of fixed capacity.
#[verifier::external_type_specification]
#[verifier::external_body]
pub struct ExHeaplessString<const N: usize>(heapless::String<N>);

/// The characters that a `heapless::String` of 32 bytes holds.
pub uninterp spec fn buffer_text(buffer: heapless::String<32>) -> Seq<char>;

/// Calls `heapless::String::new`: the new string holds no character.
#[verifier::external_body]
pub(crate) fn new_buffer() -> (buffer: heapless::String<32>)
    ensures
        buffer_text(buffer) == Seq::<char>::empty(),
{
    heapless::String::new()
}

/// Calls `heapless::String::push_str`: the piece is appended if the bytes of both
/// fit in the capacity of 32; otherwise the buffer stays as it was and the call
/// reports a failure.
#[verifier::external_body]
fn push_to_buffer(buffer: &mut heapless::String<32>, piece: &str) -> (appended: bool)
    ensures
        appended <==> encode_utf8(buffer_text(*old(buffer))).len() + encode_utf8(piece@).len() <= 32,
        buffer_text(*final(buffer)) == if appended {
            buffer_text(*old(buffer)) + piece@
        } else {
            buffer_text(*old(buffer))
        },
{
    buffer.push_str(piece).is_ok()
}

/// Calls `heapless::String::as_str`: the slice shows the characters of the buffer.
#[verifier::external_body]
fn buffer_as_str(buffer: &heapless::String<32>) -> (text: &str)
    ensures
        text@ == buffer_text(*buffer),
{
    buffer.as_str()
}

/// The number of bytes that a text takes in UTF-8.
pub open spec fn byte_len(text: Seq<char>) -> nat {
    encode_utf8(text).len()
}

/// The bytes of two texts add up when the texts are joined.
pub(crate) proof fn lemma_byte_len_concat(a: Seq<char>, b: Seq<char>)
    ensures
        byte_len(a + b) == byte_len(a) + byte_len(b),
    decreases a.len(),
{
    if a.len() == 0 {
        assert(a + b =~= b);
    } else {
        assert((a + b).drop_first() =~= a.drop_first() + b);
        lemma_byte_len_concat(a.drop_first(), b);
    }
}

/// Characters below U+0080 take one byte each.
pub(crate) proof fn lemma_byte_len_ascii(text: Seq<char>)
    requires
        forall|i: int| 0 <= i < text.len() ==> (#[trigger] text[i] as u32) < 0x80,
    ensures
        byte_len(text) == text.len(),
    decreases text.len(),
{
    if text.len() > 0 {
        let rest = text.drop_first();
        assert forall|i: int| 0 <= i < rest.len() implies (#[trigger] rest[i] as u32) < 0x80 by {
            assert(rest[i] == text[i + 1]);
        }
        lemma_byte_len_ascii(rest);
        assert((text[0] as u32) < 0x80);
    }
}

/// `piece` can be appended to a message that holds `text`.
pub open spec fn fits(text: Seq<char>, piece: Seq<char>) -> bool {
    byte_len(text + piece) <= MESSAGE_CAPACITY
}

/// A piece fits exactly when its bytes and those already there are at most 32.
pub proof fn pieces_fit_by_their_bytes(text: Seq<char>, piece: Seq<char>)
    ensures
        fits(text, piece) <==> encode_utf8(text).len() + encode_utf8(piece).len() <= 32,
{
    lemma_byte_len_concat(text, piece);
}

/// A text of at most 32 bytes, composed piece by piece.
pub struct Message {
    buffer: heapless::String<32>,
}

impl View for Message {
    type V = Seq<char>;

    closed spec fn view(&self) -> Seq<char> {
        buffer_text(self.buffer)
    }
}

impl Message {
    /// An empty message.
    pub fn new() -> (message: Message)
        ensures
            message@ == Seq::<char>::empty(),
    {
        Message { buffer: new_buffer() }
    }

    /// The message that a buffer holds.
    pub(crate) fn from_buffer(buffer: heapless::String<32>) -> (message: Message)
        ensures
            message@ == buffer_text(buffer),
    {
        Message { buffer }
    }

    /// Appends `piece` if all of it fits, and says whether it did.
    pub fn push_str(&mut self, piece: &str) -> (appended: bool)
        ensures
            appended <==> fits(old(self)@, piece@),
            appended <==> byte_len(old(self)@ + piece@) <= MESSAGE_CAPACITY,
            final(self)@ == if appended {
                old(self)@ + piece@
            } else {
                old(self)@
            },
    {
        proof {
            lemma_byte_len_concat(self@, piece@);
        }
        push_to_buffer(&mut self.buffer, piece)
    }

    /// The characters of the message.
    pub fn as_str(&self) -> (text: &str)
        ensures
            text@ == self@,
    {
        buffer_as_str(&self.buffer)
    }
}

} // verus!
