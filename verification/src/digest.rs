//! Fingerprints as bytes: the `Digest` trait and the two text forms, hexadecimal
//! and base64, that a fingerprint is usually written in.

use vstd::prelude::*;
use vstd::string::*;

verus! {

/// Anything that can be turned into the bytes of a fingerprint.
pub trait Digest {
    /// The bytes this value stands for. An implementation says here what
    /// `into_bytes` will give; one that says nothing stands for no bytes.
    open spec fn bytes(&self) -> Seq<u8> {
        Seq::empty()
    }

    /// Gives up the value for its bytes.
    fn into_bytes(self) -> (bytes: Vec<u8>)
        ensures
            bytes@ == self.bytes(),
    ;
}

/// The text was not a fingerprint in the form asked for.
#[derive(Debug)]
pub struct DigestError;

/// Whether `c` is one of `0-9`, `a-f`, `A-F`.
pub open spec fn is_hex_digit(c: char) -> bool {
    ('0' <= c <= '9') || ('a' <= c <= 'f') || ('A' <= c <= 'F')
}

/// The number in 0..=15 that a hexadecimal digit stands for.
pub open spec fn hex_value(c: char) -> int
    recommends
        is_hex_digit(c),
{
    if '0' <= c <= '9' {
        c as int - '0' as int
    } else if 'a' <= c <= 'f' {
        c as int - 'a' as int + 10
    } else {
        c as int - 'A' as int + 10
    }
}

/// Whether the text is a run of pairs of hexadecimal digits: its length is
/// even and every character is such a digit.
pub open spec fn is_hex_text(text: Seq<char>) -> bool {
    &&& text.len() % 2 == 0
    &&& forall|i: int| 0 <= i < text.len() ==> is_hex_digit(#[trigger] text[i])
}

/// The bytes that hexadecimal text spells: one byte for each pair of digits,
/// the first digit of a pair being the high half.
pub open spec fn hex_bytes(text: Seq<char>) -> Seq<u8>
    recommends
        is_hex_text(text),
{
    Seq::new(
        text.len() / 2,
        |k: int| (16 * hex_value(text[2 * k]) + hex_value(text[2 * k + 1])) as u8,
    )
}

/// The value of an ASCII byte read as a hexadecimal digit.
fn hex_digit(byte: u8) -> (value: Option<u8>)
    ensures
        value is Some <==> is_hex_digit(byte as char),
        value matches Some(v) ==> v == hex_value(byte as char),
{
    if 0x30 <= byte && byte <= 0x39 {
        Some(byte - 0x30)
    } else if 0x61 <= byte && byte <= 0x66 {
        Some(byte - 0x61 + 10)
    } else if 0x41 <= byte && byte <= 0x46 {
        Some(byte - 0x41 + 10)
    } else {
        None
    }
}

/// A fingerprint written as hexadecimal digits.
#[derive(Debug)]
pub struct Hex(Vec<u8>);

impl Hex {
    /// Reads hexadecimal text. Text of odd length, or with any character
    /// that is no hexadecimal digit, is refused.
    pub fn new(source: &str) -> (result: Result<Hex, DigestError>)
        ensures
            result is Ok <==> is_hex_text(source@),
            result matches Ok(hex) ==> hex.bytes() == hex_bytes(source@),
    {
        if !source.is_ascii() {
            return Err(DigestError);
        }
        let text = source.as_bytes();
        proof {
            is_ascii_spec_bytes(source);
        }
        let n = text.len();
        if n % 2 != 0 {
            return Err(DigestError);
        }
        let mut bytes: Vec<u8> = Vec::new();
        let mut i: usize = 0;
        while i < n
            invariant
                n == text@.len(),
                n == source@.len(),
                n % 2 == 0,
                i % 2 == 0,
                i <= n,
                is_ascii(source),
                forall|j: int| 0 <= j < n ==> text@[j] == source@[j] as u8,
                forall|j: int| 0 <= j < i ==> is_hex_digit(#[trigger] source@[j]),
                bytes@.len() == i / 2,
                forall|k: int| 0 <= k < bytes@.len() ==> bytes@[k] == hex_bytes(source@)[k],
            decreases n - i,
        {
            let high = hex_digit(text[i]);
            let low = hex_digit(text[i + 1]);
            proof {
                assert(source@[i as int] as u8 as char == source@[i as int]);
                assert(source@[i + 1] as u8 as char == source@[i + 1]);
            }
            match (high, low) {
                (Some(h), Some(l)) => {
                    bytes.push(h * 16 + l);
                },
                _ => {
                    return Err(DigestError);
                },
            }
            i += 2;
        }
        assert(bytes@ =~= hex_bytes(source@));
        Ok(Hex(bytes))
    }
}

impl Digest for Hex {
    closed spec fn bytes(&self) -> Seq<u8> {
        self.0@
    }

    fn into_bytes(self) -> (bytes: Vec<u8>) {
        self.0
    }
}

/// The error type of the `base64` crate's decoder. Nothing is known of what
/// a value of it holds.
#[verifier::external_type_specification]
#[verifier::external_body]
pub struct ExDecodeError(base64::DecodeError);

/// What the `base64` crate's `decode` makes of a text: the decoded bytes,
/// or `None` where it refuses the text.
pub uninterp spec fn base64_decoded(text: Seq<char>) -> Option<Seq<u8>>;

/// Calls `base64::decode`, the decoder for the standard alphabet with
/// padding. Trusted: the result is what `base64_decoded` names for this
/// text, the bytes on success and `None` on any error.
#[verifier::external_body]
fn decode_standard(source: &str) -> (decoded: Result<Vec<u8>, base64::DecodeError>)
    ensures
        match decoded {
            Ok(bytes) => base64_decoded(source@) == Some(bytes@),
            Err(_) => base64_decoded(source@) is None,
        },
{
    base64::decode(source)
}

/// A fingerprint written in base64.
#[derive(Debug)]
pub struct Base64(Vec<u8>);

impl Base64 {
    /// Reads base64 text in the standard alphabet with padding. Text that
    /// the decoder refuses is refused here.
    pub fn new(source: &str) -> (result: Result<Base64, DigestError>)
        ensures
            match result {
                Ok(digest) => base64_decoded(source@) == Some(digest.bytes()),
                Err(_) => base64_decoded(source@) is None,
            },
    {
        Base64::from_decoded(decode_standard(source))
    }

    /// Keeps the bytes of a successful decoding, and turns the decoder's
    /// error into `DigestError`.
    pub fn from_decoded(decoded: Result<Vec<u8>, base64::DecodeError>) -> (result: Result<
        Base64,
        DigestError,
    >)
        ensures
            match decoded {
                Ok(bytes) => result matches Ok(digest) && digest.bytes() == bytes@,
                Err(_) => result is Err,
            },
    {
        match decoded {
            Ok(bytes) => Ok(Base64(bytes)),
            Err(_) => Err(DigestError),
        }
    }
}

impl Digest for Base64 {
    closed spec fn bytes(&self) -> Seq<u8> {
        self.0@
    }

    fn into_bytes(self) -> (bytes: Vec<u8>) {
        self.0
    }
}

} // verus!
