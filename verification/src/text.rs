//! Text on its way in and out: caller-owned bytes read as UTF-8, and the NUL-terminated
//! buffers that are handed back.
use vstd::prelude::*;
use vstd::string::StringSliceAdditionalSpecFns;
use vstd::utf8::{decode_utf8, encode_utf8, valid_utf8};

verus! {

/// Reads bytes as UTF-8 text, by `core::str::from_utf8`. Trusted: the result is text exactly
/// when the bytes are well-formed UTF-8, and the text is then those same bytes, unchanged and
/// uncopied.
#[verifier::external_body]
pub(crate) fn read_utf8<'a>(bytes: &'a [u8]) -> (text: Option<&'a str>)
    ensures
        text.is_some() <==> valid_utf8(bytes@),
        text matches Some(s) ==> s.spec_bytes() == bytes@,
{
    match core::str::from_utf8(bytes) {
        Ok(s) => Some(s),
        Err(_) => None,
    }
}

/// Reads a caller's buffer as text: `Some` exactly for well-formed UTF-8, and then the
/// characters that the bytes encode.
pub fn decode<'a>(bytes: &'a [u8]) -> (text: Option<&'a str>)
    ensures
        text.is_some() <==> valid_utf8(bytes@),
        text matches Some(s) ==> s@ == decode_utf8(bytes@) && encode_utf8(s@) == bytes@,
{
    let text = read_utf8(bytes);
    proof {
        if let Some(s) = text {
            vstd::utf8::encode_utf8_decode_utf8(s@);
        }
    }
    text
}

/// Whether a byte sequence can be ended by a NUL: it holds none itself.
pub open spec fn nul_free(bytes: Seq<u8>) -> bool {
    forall|i: int| 0 <= i < bytes.len() ==> bytes[i] != 0
}

/// A buffer of text that is handed to the caller: the text's UTF-8 bytes and one closing NUL.
/// Whoever holds the value owns the buffer; giving it up releases it, once.
pub struct OutputBuffer {
    bytes: Vec<u8>,
}

impl OutputBuffer {
    /// What every buffer holds: well-formed UTF-8 without a NUL, then the closing NUL.
    #[verifier::type_invariant]
    pub closed spec fn well_formed(&self) -> bool {
        &&& self.bytes@.len() >= 1
        &&& self.bytes@.last() == 0
        &&& nul_free(self.bytes@.drop_last())
        &&& valid_utf8(self.bytes@.drop_last())
    }

    /// The bytes of the buffer, the closing NUL included.
    pub closed spec fn view(&self) -> Seq<u8> {
        self.bytes@
    }

    /// The bytes of the text that the buffer holds: all but the closing NUL.
    pub open spec fn content(&self) -> Seq<u8> {
        self@.drop_last()
    }

    /// The text that the buffer holds.
    pub open spec fn text(&self) -> Seq<char> {
        decode_utf8(self.content())
    }

    /// Copies a text into a fresh buffer of its size and closes it with a NUL. A text that
    /// holds a NUL itself cannot be closed by one: for such a text, and for no other, there is
    /// no buffer.
    pub fn acquire(text: &str) -> (buffer: Option<OutputBuffer>)
        ensures
            buffer.is_some() <==> nul_free(encode_utf8(text@)),
            buffer matches Some(b) ==> b@ == encode_utf8(text@).push(0u8) && b.text() == text@,
    {
        let source = text.as_bytes();
        let mut bytes: Vec<u8> = Vec::new();
        let mut i: usize = 0;
        while i < source.len()
            invariant
                source@ == encode_utf8(text@),
                0 <= i <= source@.len(),
                bytes@ == source@.subrange(0, i as int),
                nul_free(bytes@),
            decreases source@.len() - i,
        {
            let byte: u8 = source[i];
            if byte == 0 {
                return None;
            }
            bytes.push(byte);
            i += 1;
            assert(bytes@ == source@.subrange(0, i as int));
        }
        assert(bytes@ == source@);
        bytes.push(0u8);
        proof {
            assert(bytes@.drop_last() == source@);
            vstd::utf8::encode_utf8_valid_utf8(text@);
            vstd::utf8::encode_utf8_decode_utf8(text@);
        }
        Some(OutputBuffer { bytes })
    }

    /// The bytes of the buffer, the closing NUL included.
    pub fn as_bytes(&self) -> (bytes: &[u8])
        ensures
            bytes@ == self@,
            bytes@.len() >= 1,
            bytes@.last() == 0,
            nul_free(self.content()),
            valid_utf8(self.content()),
            encode_utf8(self.text()) == self.content(),
    {
        proof {
            use_type_invariant(self);
            vstd::utf8::decode_utf8_encode_utf8(self.content());
        }
        self.bytes.as_slice()
    }

    /// Gives up the buffer for its bytes, the closing NUL included.
    pub fn into_bytes(self) -> (bytes: Vec<u8>)
        ensures
            bytes@ == self@,
            bytes@.len() >= 1,
            bytes@.last() == 0,
            nul_free(self.content()),
            valid_utf8(self.content()),
            encode_utf8(self.text()) == self.content(),
    {
        proof {
            use_type_invariant(&self);
            vstd::utf8::decode_utf8_encode_utf8(self.content());
        }
        self.bytes
    }
}

} // verus!
