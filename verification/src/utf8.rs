//! Validated text from native byte strings.
//!
//! String-returning native queries hand back raw bytes.  The library
//! checks them against the UTF-8 well-formedness rules itself, decodes
//! valid bytes into owned text, and treats invalid byte sequences as a
//! distinct failure from a null return.

use vstd::prelude::*;

use crate::error::Error;

verus! {

/// Whether `b` is a UTF-8 continuation byte.
pub open spec fn utf8_is_continuation(b: u8) -> bool {
    0x80 <= b <= 0xBF
}

/// Whether `s` is a well-formed UTF-8 byte sequence: every scalar value is
/// encoded in its shortest form, and surrogate values and values above the
/// last scalar value are excluded.
pub open spec fn utf8_valid(s: Seq<u8>) -> bool
    decreases s.len(),
{
    if s.len() == 0 {
        true
    } else {
        let b0 = s[0];
        if b0 < 0x80 {
            utf8_valid(s.skip(1))
        } else if 0xC2 <= b0 <= 0xDF {
            if s.len() < 2 {
                false
            } else {
                utf8_is_continuation(s[1]) && utf8_valid(s.skip(2))
            }
        } else if b0 == 0xE0 {
            if s.len() < 3 {
                false
            } else {
                0xA0 <= s[1] <= 0xBF && utf8_is_continuation(s[2]) && utf8_valid(s.skip(3))
            }
        } else if 0xE1 <= b0 <= 0xEC || b0 == 0xEE || b0 == 0xEF {
            if s.len() < 3 {
                false
            } else {
                utf8_is_continuation(s[1]) && utf8_is_continuation(s[2]) && utf8_valid(s.skip(3))
            }
        } else if b0 == 0xED {
            if s.len() < 3 {
                false
            } else {
                0x80 <= s[1] <= 0x9F && utf8_is_continuation(s[2]) && utf8_valid(s.skip(3))
            }
        } else if b0 == 0xF0 {
            if s.len() < 4 {
                false
            } else {
                0x90 <= s[1] <= 0xBF && utf8_is_continuation(s[2]) && utf8_is_continuation(s[3])
                    && utf8_valid(s.skip(4))
            }
        } else if 0xF1 <= b0 <= 0xF3 {
            if s.len() < 4 {
                false
            } else {
                utf8_is_continuation(s[1]) && utf8_is_continuation(s[2])
                    && utf8_is_continuation(s[3]) && utf8_valid(s.skip(4))
            }
        } else if b0 == 0xF4 {
            if s.len() < 4 {
                false
            } else {
                0x80 <= s[1] <= 0x8F && utf8_is_continuation(s[2]) && utf8_is_continuation(s[3])
                    && utf8_valid(s.skip(4))
            }
        } else {
            false
        }
    }
}

/// Whether every byte of `s` is a plain ASCII byte.
pub open spec fn utf8_all_ascii(s: Seq<u8>) -> bool {
    forall|i: int| 0 <= i < s.len() ==> s[i] < 0x80
}

/// Checks a byte sequence against the UTF-8 well-formedness rules.
pub fn validate_utf8(bytes: &Vec<u8>) -> (r: bool)
    ensures
        r == utf8_valid(bytes@),
{
    let n = bytes.len();
    let mut i: usize = 0;
    proof {
        assert(bytes@.skip(0) =~= bytes@);
    }
    while i < n
        invariant
            i <= n,
            n == bytes@.len(),
            utf8_valid(bytes@) == utf8_valid(bytes@.skip(i as int)),
        decreases n - i,
    {
        proof {
            let rest = bytes@.skip(i as int);
            assert(rest.len() == n - i);
            assert(forall|k: int| 0 <= k < rest.len() ==> rest[k] == bytes@[i + k]);
        }
        let b0 = bytes[i];
        if b0 < 0x80 {
            proof {
                assert(bytes@.skip(i as int).skip(1) =~= bytes@.skip(i + 1));
            }
            i = i + 1;
        } else if 0xC2 <= b0 && b0 <= 0xDF {
            if n - i < 2 {
                return false;
            }
            if !(0x80 <= bytes[i + 1] && bytes[i + 1] <= 0xBF) {
                return false;
            }
            proof {
                assert(bytes@.skip(i as int).skip(2) =~= bytes@.skip(i + 2));
            }
            i = i + 2;
        } else if b0 == 0xE0 {
            if n - i < 3 {
                return false;
            }
            if !(0xA0 <= bytes[i + 1] && bytes[i + 1] <= 0xBF) {
                return false;
            }
            if !(0x80 <= bytes[i + 2] && bytes[i + 2] <= 0xBF) {
                return false;
            }
            proof {
                assert(bytes@.skip(i as int).skip(3) =~= bytes@.skip(i + 3));
            }
            i = i + 3;
        } else if (0xE1 <= b0 && b0 <= 0xEC) || b0 == 0xEE || b0 == 0xEF {
            if n - i < 3 {
                return false;
            }
            if !(0x80 <= bytes[i + 1] && bytes[i + 1] <= 0xBF) {
                return false;
            }
            if !(0x80 <= bytes[i + 2] && bytes[i + 2] <= 0xBF) {
                return false;
            }
            proof {
                assert(bytes@.skip(i as int).skip(3) =~= bytes@.skip(i + 3));
            }
            i = i + 3;
        } else if b0 == 0xED {
            if n - i < 3 {
                return false;
            }
            if !(0x80 <= bytes[i + 1] && bytes[i + 1] <= 0x9F) {
                return false;
            }
            if !(0x80 <= bytes[i + 2] && bytes[i + 2] <= 0xBF) {
                return false;
            }
            proof {
                assert(bytes@.skip(i as int).skip(3) =~= bytes@.skip(i + 3));
            }
            i = i + 3;
        } else if b0 == 0xF0 {
            if n - i < 4 {
                return false;
            }
            if !(0x90 <= bytes[i + 1] && bytes[i + 1] <= 0xBF) {
                return false;
            }
            if !(0x80 <= bytes[i + 2] && bytes[i + 2] <= 0xBF) {
                return false;
            }
            if !(0x80 <= bytes[i + 3] && bytes[i + 3] <= 0xBF) {
                return false;
            }
            proof {
                assert(bytes@.skip(i as int).skip(4) =~= bytes@.skip(i + 4));
            }
            i = i + 4;
        } else if 0xF1 <= b0 && b0 <= 0xF3 {
            if n - i < 4 {
                return false;
            }
            if !(0x80 <= bytes[i + 1] && bytes[i + 1] <= 0xBF) {
                return false;
            }
            if !(0x80 <= bytes[i + 2] && bytes[i + 2] <= 0xBF) {
                return false;
            }
            if !(0x80 <= bytes[i + 3] && bytes[i + 3] <= 0xBF) {
                return false;
            }
            proof {
                assert(bytes@.skip(i as int).skip(4) =~= bytes@.skip(i + 4));
            }
            i = i + 4;
        } else if b0 == 0xF4 {
            if n - i < 4 {
                return false;
            }
            if !(0x80 <= bytes[i + 1] && bytes[i + 1] <= 0x8F) {
                return false;
            }
            if !(0x80 <= bytes[i + 2] && bytes[i + 2] <= 0xBF) {
                return false;
            }
            if !(0x80 <= bytes[i + 3] && bytes[i + 3] <= 0xBF) {
                return false;
            }
            proof {
                assert(bytes@.skip(i as int).skip(4) =~= bytes@.skip(i + 4));
            }
            i = i + 4;
        } else {
            return false;
        }
    }
    proof {
        assert(bytes@.skip(n as int) =~= Seq::<u8>::empty());
    }
    true
}

/// Relies on `String::from_utf8`: on well-formed UTF-8 input it succeeds,
/// and ASCII bytes decode to the characters of the same value.
#[verifier::external_body]
fn string_from_utf8_bytes(bytes: Vec<u8>) -> (r: String)
    requires
        utf8_valid(bytes@),
    ensures
        r@.len() <= bytes@.len(),
        utf8_all_ascii(bytes@) ==> r@.len() == bytes@.len() && (forall|i: int|
            0 <= i < r@.len() ==> r@[i] == bytes@[i] as char),
{
    match String::from_utf8(bytes) {
        Ok(text) => text,
        Err(_) => String::new(),
    }
}

/// Decodes bytes a native query reported into owned text.
///
/// Succeeds exactly on well-formed UTF-8 input; every other input gives the
/// text-decoding error.  ASCII input decodes character for character.
pub fn decode_native_text(bytes: Vec<u8>) -> (r: Result<String, Error>)
    ensures
        r is Ok <==> utf8_valid(bytes@),
        r matches Err(e) ==> e == Error::NonUtf8StringReceived,
        r matches Ok(s) ==> s@.len() <= bytes@.len(),
        r matches Ok(s) ==> (utf8_all_ascii(bytes@) ==> s@.len() == bytes@.len() && (forall|
            i: int,
        | 0 <= i < s@.len() ==> s@[i] == bytes@[i] as char)),
{
    if validate_utf8(&bytes) {
        Ok(string_from_utf8_bytes(bytes))
    } else {
        Err(Error::NonUtf8StringReceived)
    }
}

} // verus!
