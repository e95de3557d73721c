//! UTF-8 validity and the guest-owned text type.
//!
//! Every string that crosses the sandbox boundary travels as raw bytes, and
//! the return path copies bytes whose encoding is assumed but never framed.
//! This module defines what a valid UTF-8 byte sequence is, checks it with a
//! verified validator, and wraps a validated copy in [`GuestText`], the
//! guest-owned string that the rest of the crate works with.

use vstd::prelude::*;

verus! {

/// True when `b` is a UTF-8 continuation byte (`0x80..=0xBF`).
pub open spec fn is_cont(b: u8) -> bool {
    0x80 <= b && b <= 0xBF
}

/// A valid two-byte sequence: leader `0xC2..=0xDF` (leaders `0xC0` and `0xC1`
/// would be overlong encodings) followed by one continuation byte.
pub open spec fn valid_two(b0: u8, b1: u8) -> bool {
    0xC2 <= b0 && b0 <= 0xDF && is_cont(b1)
}

/// A valid three-byte sequence. The first continuation byte is restricted for
/// leader `0xE0` (overlong) and leader `0xED` (surrogate code points).
pub open spec fn valid_three(b0: u8, b1: u8, b2: u8) -> bool {
    &&& is_cont(b2)
    &&& ({
        ||| (b0 == 0xE0 && 0xA0 <= b1 && b1 <= 0xBF)
        ||| (0xE1 <= b0 && b0 <= 0xEC && is_cont(b1))
        ||| (b0 == 0xED && 0x80 <= b1 && b1 <= 0x9F)
        ||| (0xEE <= b0 && b0 <= 0xEF && is_cont(b1))
    })
}

/// A valid four-byte sequence. The first continuation byte is restricted for
/// leader `0xF0` (overlong) and leader `0xF4` (code points above `U+10FFFF`).
pub open spec fn valid_four(b0: u8, b1: u8, b2: u8, b3: u8) -> bool {
    &&& is_cont(b2)
    &&& is_cont(b3)
    &&& ({
        ||| (b0 == 0xF0 && 0x90 <= b1 && b1 <= 0xBF)
        ||| (0xF1 <= b0 && b0 <= 0xF3 && is_cont(b1))
        ||| (b0 == 0xF4 && 0x80 <= b1 && b1 <= 0x8F)
    })
}

/// The suffix of `s` starting at `i` is a sequence of valid UTF-8 encodings.
pub open spec fn valid_utf8_from(s: Seq<u8>, i: int) -> bool
    decreases s.len() - i,
{
    if i >= s.len() {
        true
    } else {
        ||| (s[i] <= 0x7F && valid_utf8_from(s, i + 1))
        ||| (i + 2 <= s.len() && valid_two(s[i], s[i + 1]) && valid_utf8_from(s, i + 2))
        ||| (i + 3 <= s.len() && valid_three(s[i], s[i + 1], s[i + 2]) && valid_utf8_from(
            s,
            i + 3,
        ))
        ||| (i + 4 <= s.len() && valid_four(s[i], s[i + 1], s[i + 2], s[i + 3])
            && valid_utf8_from(s, i + 4))
    }
}

/// `s` is a well-formed UTF-8 byte sequence: it decomposes into valid one- to
/// four-byte encodings, with overlong forms, surrogates and code points above
/// `U+10FFFF` excluded.
pub open spec fn is_valid_utf8(s: Seq<u8>) -> bool {
    valid_utf8_from(s, 0)
}

/// At any position the leader byte determines which (single) encoding length
/// can apply, so validity of the suffix steps deterministically.
proof fn lemma_utf8_step(s: Seq<u8>, i: int)
    requires
        0 <= i < s.len(),
    ensures
        s[i] <= 0x7F ==> valid_utf8_from(s, i) == valid_utf8_from(s, i + 1),
        0x80 <= s[i] && s[i] <= 0xC1 ==> !valid_utf8_from(s, i),
        0xC2 <= s[i] && s[i] <= 0xDF ==> valid_utf8_from(s, i) == (i + 2 <= s.len() && is_cont(
            s[i + 1],
        ) && valid_utf8_from(s, i + 2)),
        0xE0 <= s[i] && s[i] <= 0xEF ==> valid_utf8_from(s, i) == (i + 3 <= s.len() && valid_three(
            s[i],
            s[i + 1],
            s[i + 2],
        ) && valid_utf8_from(s, i + 3)),
        0xF0 <= s[i] && s[i] <= 0xF4 ==> valid_utf8_from(s, i) == (i + 4 <= s.len() && valid_four(
            s[i],
            s[i + 1],
            s[i + 2],
            s[i + 3],
        ) && valid_utf8_from(s, i + 4)),
        s[i] >= 0xF5 ==> !valid_utf8_from(s, i),
{
}

/// Checks whether `v` holds well-formed UTF-8, by a single left-to-right scan.
pub fn validate_utf8(v: &Vec<u8>) -> (r: bool)
    ensures
        r == is_valid_utf8(v@),
{
    let n = v.len();
    let mut i: usize = 0;
    loop
        invariant
            i <= n,
            n == v@.len(),
            is_valid_utf8(v@) == valid_utf8_from(v@, i as int),
        decreases n - i,
    {
        if i >= n {
            return true;
        }
        proof {
            lemma_utf8_step(v@, i as int);
        }
        let b0 = v[i];
        if b0 <= 0x7F {
            i = i + 1;
        } else if 0xC2 <= b0 && b0 <= 0xDF {
            if n - i >= 2 && 0x80 <= v[i + 1] && v[i + 1] <= 0xBF {
                i = i + 2;
            } else {
                return false;
            }
        } else if 0xE0 <= b0 && b0 <= 0xEF {
            if n - i >= 3 {
                let b1 = v[i + 1];
                let b2 = v[i + 2];
                let lead_ok: bool = if b0 == 0xE0 {
                    0xA0 <= b1 && b1 <= 0xBF
                } else if b0 == 0xED {
                    0x80 <= b1 && b1 <= 0x9F
                } else {
                    0x80 <= b1 && b1 <= 0xBF
                };
                if lead_ok && 0x80 <= b2 && b2 <= 0xBF {
                    i = i + 3;
                } else {
                    return false;
                }
            } else {
                return false;
            }
        } else if 0xF0 <= b0 && b0 <= 0xF4 {
            if n - i >= 4 {
                let b1 = v[i + 1];
                let b2 = v[i + 2];
                let b3 = v[i + 3];
                let lead_ok: bool = if b0 == 0xF0 {
                    0x90 <= b1 && b1 <= 0xBF
                } else if b0 == 0xF4 {
                    0x80 <= b1 && b1 <= 0x8F
                } else {
                    0x80 <= b1 && b1 <= 0xBF
                };
                if lead_ok && 0x80 <= b2 && b2 <= 0xBF && 0x80 <= b3 && b3 <= 0xBF {
                    i = i + 4;
                } else {
                    return false;
                }
            } else {
                return false;
            }
        } else {
            return false;
        }
    }
}

/// A guest-owned string: a growable buffer of bytes validated as UTF-8 and
/// independent of any host-side buffer's lifetime.
pub struct GuestText {
    bytes: Vec<u8>,
}

impl View for GuestText {
    type V = Seq<u8>;

    closed spec fn view(&self) -> Seq<u8> {
        self.bytes@
    }
}

impl GuestText {
    /// Every reachable `GuestText` holds well-formed UTF-8.
    pub open spec fn wf(self) -> bool {
        is_valid_utf8(self@)
    }

    /// Takes ownership of a byte buffer after validating it, so the text's
    /// contents are exactly the bytes that were handed in.
    pub fn from_bytes(bytes: Vec<u8>) -> (r: Option<GuestText>)
        ensures
            r is Some <==> is_valid_utf8(bytes@),
            r is Some ==> r.unwrap()@ == bytes@ && r.unwrap().wf(),
    {
        if validate_utf8(&bytes) {
            Some(GuestText { bytes })
        } else {
            None
        }
    }

    /// Borrows the encoded bytes.
    pub fn as_bytes(&self) -> (r: &Vec<u8>)
        ensures
            r@ == self@,
    {
        &self.bytes
    }

    /// Gives the encoded bytes up, consuming the text.
    pub fn into_bytes(self) -> (r: Vec<u8>)
        ensures
            r@ == self@,
    {
        self.bytes
    }

    /// The length of the encoding in bytes.
    pub fn byte_len(&self) -> (r: usize)
        ensures
            r == self@.len(),
    {
        self.bytes.len()
    }
}

} // verus!
