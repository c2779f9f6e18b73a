//! A text buffer of fixed capacity that needs no allocator.
use core::fmt::Write;
use vstd::prelude::*;
use vstd::slice::slice_subrange;
use vstd::string::StringSliceAdditionalSpecFns;
use vstd::utf8::{encode_scalar, valid_utf8};

verus! {

/// The number of bytes that a [`NoStdString`] can hold.
pub const CAPACITY: usize = 4096;

/// Up to [`CAPACITY`] bytes of text, held in place.
///
/// Its view is the bytes written so far. Writing appends the UTF-8 encoding of
/// what is written, or fails and leaves the buffer as it was where that would
/// not fit.
#[derive(Debug)]
pub struct NoStdString {
    bytes: [u8; CAPACITY],
    length: usize,
}

impl View for NoStdString {
    type V = Seq<u8>;

    closed spec fn view(&self) -> Seq<u8> {
        self.bytes@.subrange(0, self.length as int)
    }
}

/// The test that a byte passes where it is not `pattern`.
pub open spec fn differs_from(pattern: u8) -> spec_fn(u8) -> bool {
    |byte: u8| byte != pattern
}

/// The bytes of `content` without those equal to `pattern`, in their order.
pub open spec fn without_byte(content: Seq<u8>, pattern: u8) -> Seq<u8> {
    content.filter(differs_from(pattern))
}

impl NoStdString {
    #[verifier::type_invariant]
    spec fn within_capacity(&self) -> bool {
        self.length <= CAPACITY
    }

    /// Whether the bytes written so far are valid UTF-8. They are as long as
    /// the buffer is only written to.
    pub open spec fn is_text(&self) -> bool {
        valid_utf8(self@)
    }

    /// A buffer that holds `text`, or an error where `text` is longer than
    /// [`CAPACITY`] bytes.
    pub fn format(text: &str) -> (buffer: Result<Self, core::fmt::Error>)
        ensures
            buffer is Ok <==> text.spec_bytes().len() <= CAPACITY,
            buffer matches Ok(written) ==> written@ == text.spec_bytes() && written.is_text(),
    {
        let mut text_buffer = NoStdString::default();
        match text_buffer.write_str(text) {
            Ok(()) => {
                proof {
                    vstd::utf8::encode_utf8_valid_utf8(text@);
                }
                Ok(text_buffer)
            },
            Err(error) => Err(error),
        }
    }

    /// The buffer without the bytes equal to `pattern`; the others keep their
    /// order.
    pub fn removing(self, pattern: u8) -> (kept: Self)
        ensures
            kept@ == without_byte(self@, pattern),
            pattern < 0x80 && self.is_text() ==> kept.is_text(),
    {
        proof {
            use_type_invariant(&self);
            if pattern < 0x80 && self.is_text() {
                lemma_without_ascii_byte_is_text(self@, pattern);
            }
        }
        let mut kept = self;
        let ghost content = kept@;
        let mut source_index: usize = 0;
        let mut destination_index: usize = 0;
        while source_index < kept.length
            invariant
                destination_index <= source_index <= kept.length <= CAPACITY,
                kept.length == content.len(),
                kept.bytes@.subrange(source_index as int, kept.length as int) == content.skip(
                    source_index as int,
                ),
                kept.bytes@.subrange(0, destination_index as int) == content.take(
                    source_index as int,
                ).filter(differs_from(pattern)),
            decreases kept.length - source_index,
        {
            let byte = kept.bytes[source_index];
            let ghost before = kept.bytes@;
            proof {
                assert(byte == content.skip(source_index as int)[0]);
                let seen = content.take(source_index + 1);
                assert(seen.drop_last() =~= content.take(source_index as int));
                assert(seen.last() == byte);
                reveal_with_fuel(Seq::filter, 2);
            }
            if byte != pattern {
                kept.bytes[destination_index] = byte;
                destination_index += 1;
            }
            source_index += 1;
            proof {
                assert(kept.bytes@.subrange(source_index as int, kept.length as int)
                    =~= before.subrange(source_index - 1, kept.length as int).skip(1));
                assert(content.skip(source_index as int) =~= content.skip(source_index - 1).skip(1));
                if byte != pattern {
                    assert(kept.bytes@.subrange(0, destination_index as int)
                        =~= before.subrange(0, destination_index - 1).push(byte));
                } else {
                    assert(kept.bytes@.subrange(0, destination_index as int)
                        =~= before.subrange(0, destination_index as int));
                }
            }
        }
        proof {
            assert(content.take(source_index as int) =~= content);
        }
        kept.length = destination_index;
        kept
    }
}

impl Default for NoStdString {
    /// The empty buffer.
    fn default() -> (buffer: Self)
        ensures
            buffer@ == Seq::<u8>::empty(),
            buffer.is_text(),
    {
        Self { bytes: [0; CAPACITY], length: 0 }
    }
}

impl AsRef<str> for NoStdString {
    /// The text written so far.
    fn as_ref(&self) -> (text: &str)
        requires
            self.is_text(),
        ensures
            text.spec_bytes() == self@,
    {
        proof {
            use_type_invariant(self);
        }
        let written = slice_subrange(self.bytes.as_slice(), 0, self.length);
        match utf8_text(written) {
            Ok(text) => text,
            Err(_) => vstd::pervasive::unreached(),
        }
    }
}

impl NoStdString {
    /// Whether the bytes written so far are exactly `bytes`.
    fn holds(&self, bytes: &[u8]) -> (equal: bool)
        ensures
            equal == (self@ == bytes@),
    {
        proof {
            use_type_invariant(self);
        }
        if bytes.len() != self.length {
            return false;
        }
        let mut index: usize = 0;
        while index < self.length
            invariant
                index <= self.length <= CAPACITY,
                bytes@.len() == self.length,
                self@.take(index as int) == bytes@.take(index as int),
            decreases self.length - index,
        {
            if self.bytes[index] != bytes[index] {
                assert(self@[index as int] != bytes@[index as int]);
                return false;
            }
            index += 1;
            assert(self@.take(index as int) =~= self@.take(index - 1).push(self@[index - 1]));
            assert(bytes@.take(index as int) =~= bytes@.take(index - 1).push(bytes@[index - 1]));
        }
        assert(self@ =~= self@.take(index as int));
        assert(bytes@ =~= bytes@.take(index as int));
        true
    }
}

impl PartialEq<&str> for NoStdString {
    /// Whether the buffer holds exactly the text `other`.
    fn eq(&self, other: &&str) -> (equal: bool) {
        self.holds(other.as_bytes())
    }
}

impl vstd::std_specs::cmp::PartialEqSpecImpl<&str> for NoStdString {
    open spec fn obeys_eq_spec() -> bool {
        true
    }

    open spec fn eq_spec(&self, other: &&str) -> bool {
        self@ == other.spec_bytes()
    }
}

impl PartialEq<NoStdString> for &str {
    /// Whether `other` holds exactly this text.
    fn eq(&self, other: &NoStdString) -> (equal: bool) {
        other.holds(self.as_bytes())
    }
}

impl vstd::std_specs::cmp::PartialEqSpecImpl<NoStdString> for &str {
    open spec fn obeys_eq_spec() -> bool {
        true
    }

    open spec fn eq_spec(&self, other: &NoStdString) -> bool {
        other@ == self.spec_bytes()
    }
}

impl Write for NoStdString {
    /// Appends `text`, or fails and changes nothing where the buffer cannot
    /// take all of it.
    fn write_str(&mut self, text: &str) -> (outcome: Result<(), core::fmt::Error>)
        ensures
            outcome is Ok <==> old(self)@.len() + text.spec_bytes().len() <= CAPACITY,
            outcome is Ok ==> final(self)@ == old(self)@ + text.spec_bytes(),
            outcome is Err ==> final(self)@ == old(self)@,
            old(self).is_text() ==> final(self).is_text(),
    {
        proof {
            use_type_invariant(&*self);
            vstd::utf8::encode_utf8_valid_utf8(text@);
            if self.is_text() {
                vstd::utf8::valid_utf8_concat(self@, text.spec_bytes());
            }
        }
        let source = text.as_bytes();
        if source.len() > CAPACITY - self.length {
            return Err(fmt_error());
        }
        self.append(source);
        Ok(())
    }

    /// Appends the UTF-8 encoding of `codepoint`, or fails and changes nothing
    /// where the buffer cannot take all of it.
    fn write_char(&mut self, codepoint: char) -> (outcome: Result<(), core::fmt::Error>)
        ensures
            outcome is Ok <==> old(self)@.len() + encode_scalar(codepoint as u32).len() <= CAPACITY,
            outcome is Ok ==> final(self)@ == old(self)@ + encode_scalar(codepoint as u32),
            outcome is Err ==> final(self)@ == old(self)@,
            old(self).is_text() ==> final(self).is_text(),
    {
        proof {
            use_type_invariant(&*self);
            lemma_encoded_char_is_text(codepoint);
            if self.is_text() {
                vstd::utf8::valid_utf8_concat(self@, encode_scalar(codepoint as u32));
            }
        }
        let width = utf8_width(codepoint);
        if width > CAPACITY - self.length {
            return Err(fmt_error());
        }
        let mut scratch: [u8; 4] = [0; 4];
        encode_utf8_into(codepoint, &mut scratch);
        let encoded = slice_subrange(scratch.as_slice(), 0, width);
        self.append(encoded);
        Ok(())
    }
}

impl NoStdString {
    /// Copies `source` behind the bytes written so far.
    fn append(&mut self, source: &[u8])
        requires
            old(self)@.len() + source@.len() <= CAPACITY,
        ensures
            final(self)@ == old(self)@ + source@,
    {
        proof {
            use_type_invariant(&*self);
        }
        let ghost content = self@;
        let start = self.length;
        let mut index: usize = 0;
        while index < source.len()
            invariant
                index <= source@.len(),
                start + source@.len() <= CAPACITY,
                self.length == start + index,
                self.bytes@.subrange(0, self.length as int) == content + source@.take(index as int),
            decreases source@.len() - index,
        {
            let ghost before = self.bytes@;
            self.bytes[self.length] = source[index];
            self.length += 1;
            index += 1;
            proof {
                assert(source@.take(index as int) =~= source@.take(index - 1).push(source@[index - 1]));
                assert(self.bytes@.subrange(0, self.length as int) =~= before.subrange(
                    0,
                    self.length - 1,
                ).push(source@[index - 1]));
            }
        }
        proof {
            assert(source@.take(index as int) =~= source@);
        }
    }
}

/// Removing nothing: a run of up to four bytes that all differ from `pattern`
/// stays as it is.
proof fn lemma_without_absent_byte(bytes: Seq<u8>, pattern: u8)
    requires
        bytes.len() <= 4,
        forall|i: int| 0 <= i < bytes.len() ==> bytes[i] != pattern,
    ensures
        without_byte(bytes, pattern) == bytes,
    decreases bytes.len(),
{
    reveal(Seq::filter);
    if bytes.len() > 0 {
        lemma_without_absent_byte(bytes.drop_last(), pattern);
        assert(bytes.drop_last().push(bytes.last()) =~= bytes);
    }
}

/// Taking every occurrence of an ASCII byte out of valid UTF-8 leaves valid
/// UTF-8: such a byte is a character of its own and part of no other.
pub proof fn lemma_without_ascii_byte_is_text(content: Seq<u8>, pattern: u8)
    requires
        valid_utf8(content),
        pattern < 0x80,
    ensures
        valid_utf8(without_byte(content, pattern)),
    decreases content.len(),
{
    if content.len() == 0 {
        reveal(Seq::filter);
    } else {
        let width = vstd::utf8::length_of_first_scalar(content);
        let head = vstd::utf8::take_first_scalar(content);
        let rest = vstd::utf8::pop_first_scalar(content);
        assert(1 <= width <= 4 && width <= content.len());
        assert(content =~= head + rest);
        lemma_without_ascii_byte_is_text(rest, pattern);
        Seq::filter_distributes_over_add(head, rest, differs_from(pattern));
        assert(vstd::utf8::valid_first_scalar(head));
        assert(vstd::utf8::pop_first_scalar(head) =~= Seq::<u8>::empty());
        assert(valid_utf8(Seq::<u8>::empty()));
        assert(valid_utf8(head));
        if width == 1 && head[0] == pattern {
            reveal_with_fuel(Seq::filter, 2);
            assert(without_byte(head, pattern) =~= Seq::<u8>::empty());
            assert(without_byte(head, pattern) + without_byte(rest, pattern) =~= without_byte(
                rest,
                pattern,
            ));
        } else {
            lemma_without_absent_byte(head, pattern);
            vstd::utf8::valid_utf8_concat(head, without_byte(rest, pattern));
        }
    }
}

/// The UTF-8 encoding of one character is valid UTF-8.
pub proof fn lemma_encoded_char_is_text(codepoint: char)
    ensures
        valid_utf8(encode_scalar(codepoint as u32)),
{
    let text = seq![codepoint];
    vstd::utf8::encode_utf8_valid_utf8(text);
    assert(text.drop_first() =~= Seq::<char>::empty());
    assert(vstd::utf8::encode_utf8(text) =~= encode_scalar(codepoint as u32)) by {
        reveal_with_fuel(vstd::utf8::encode_utf8, 2);
    }
}

/// `Default::default` of `core::fmt::Error`: the one value of that type.
#[verifier::external_body]
fn fmt_error() -> (error: core::fmt::Error) {
    core::fmt::Error::default()
}

/// The error of `core::str::from_utf8`: the bytes are no UTF-8.
#[verifier::external_type_specification]
#[verifier::external_body]
pub struct ExUtf8Error(core::str::Utf8Error);

/// `core::str::from_utf8`: succeeds exactly on valid UTF-8, and the text then
/// has the given bytes as its encoding.
#[verifier::external_body]
fn utf8_text(bytes: &[u8]) -> (text: Result<&str, core::str::Utf8Error>)
    ensures
        text is Ok <==> valid_utf8(bytes@),
        text matches Ok(decoded) ==> decoded.spec_bytes() == bytes@,
{
    core::str::from_utf8(bytes)
}

/// `char::len_utf8`: the number of bytes of the character's UTF-8 encoding,
/// between one and four.
#[verifier::external_body]
fn utf8_width(codepoint: char) -> (width: usize)
    ensures
        width == encode_scalar(codepoint as u32).len(),
        1 <= width <= 4,
{
    codepoint.len_utf8()
}

/// `char::encode_utf8` into a buffer of four bytes, which is always enough:
/// the buffer then begins with the character's UTF-8 encoding.
#[verifier::external_body]
fn encode_utf8_into(codepoint: char, buffer: &mut [u8; 4])
    ensures
        final(buffer)@.take(encode_scalar(codepoint as u32).len() as int) == encode_scalar(
            codepoint as u32,
        ),
{
    codepoint.encode_utf8(buffer);
}

} // verus!
