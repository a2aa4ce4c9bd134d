//! Character-level text utilities: a total, lossy UTF-8 decoder and
//! conversions between strings and character vectors.
//!
//! The decoder is specified by [`lossy_utf8`]: every well-formed scalar
//! encoding decodes to its character, and every maximal subpart of an
//! ill-formed subsequence — the longest prefix that could still begin a
//! well-formed encoding, at least one byte — yields exactly one visible
//! placeholder character, the substitution rule the Unicode standard
//! recommends.  On inputs that satisfy [`valid_utf8`] the decoder agrees
//! with vstd's [`decode_utf8`], which gives the round trip with
//! [`encode_utf8`].

use vstd::prelude::*;
use vstd::utf8::*;

verus! {

/// The visible placeholder emitted for bytes that are not valid UTF-8.
pub open spec fn placeholder_char() -> char {
    '\u{2753}'
}

/// True when the two bytes can begin a well-formed scalar encoding of two or
/// more bytes: a multi-byte leader followed by a continuation byte in the
/// range that rules out overlong encodings and surrogates.
pub open spec fn continuation_in_range(b0: u8, b1: u8) -> bool {
    if 0xc2 <= b0 <= 0xdf {
        0x80 <= b1 <= 0xbf
    } else if b0 == 0xe0 {
        0xa0 <= b1 <= 0xbf
    } else if (0xe1 <= b0 <= 0xec) || b0 == 0xee || b0 == 0xef {
        0x80 <= b1 <= 0xbf
    } else if b0 == 0xed {
        0x80 <= b1 <= 0x9f
    } else if b0 == 0xf0 {
        0x90 <= b1 <= 0xbf
    } else if 0xf1 <= b0 <= 0xf3 {
        0x80 <= b1 <= 0xbf
    } else if b0 == 0xf4 {
        0x80 <= b1 <= 0x8f
    } else {
        false
    }
}

/// The length of the maximal subpart of an ill-formed subsequence at the
/// head of the input: how many bytes still form a prefix of some
/// well-formed scalar encoding, and at least one.
pub open spec fn ill_formed_prefix_len(bytes: Seq<u8>) -> int
    recommends
        bytes.len() > 0,
{
    if bytes.len() < 2 || !continuation_in_range(bytes[0], bytes[1]) {
        1
    } else if bytes.len() < 3 || !is_continuation_byte(bytes[2]) {
        2
    } else if bytes.len() < 4 || !is_continuation_byte(bytes[3]) {
        3
    } else {
        4
    }
}

/// Total lossy UTF-8 decoding: a well-formed scalar encoding decodes to its
/// character, and each maximal subpart of an ill-formed subsequence becomes
/// one placeholder character.
pub open spec fn lossy_utf8(bytes: Seq<u8>) -> Seq<char>
    decreases bytes.len(),
{
    if bytes.len() == 0 {
        seq![]
    } else if valid_first_scalar(bytes) {
        seq![decode_first_scalar(bytes) as char] + lossy_utf8(pop_first_scalar(bytes))
    } else {
        seq![placeholder_char()] + lossy_utf8(bytes.skip(ill_formed_prefix_len(bytes)))
    }
}

/// On well-formed input the lossy decoder agrees with strict UTF-8 decoding.
pub proof fn lemma_lossy_utf8_of_valid(bytes: Seq<u8>)
    requires
        valid_utf8(bytes),
    ensures
        lossy_utf8(bytes) == decode_utf8(bytes),
    decreases bytes.len(),
{
    if bytes.len() == 0 {
    } else {
        lemma_lossy_utf8_of_valid(pop_first_scalar(bytes));
    }
}

/// Relies on `char::from_u32` from std: for every value outside the surrogate
/// range and at most 0x10FFFF (that is, every Unicode scalar value) it returns
/// `Some` of the character with exactly that value.
#[verifier::external_body]
pub(crate) fn char_from_scalar(u: u32) -> (r: char)
    requires
        is_scalar(u),
    ensures
        r == u as char,
        r as u32 == u,
{
    char::from_u32(u).unwrap_or(' ')
}

/// Relies on `String`'s `FromIterator<char>` implementation from std:
/// collecting an iterator of characters yields the string of exactly those
/// characters in order.
#[verifier::external_body]
pub fn string_from_chars(chars: &Vec<char>) -> (r: String)
    ensures
        r@ == chars@,
{
    chars.iter().collect()
}

/// The characters of a string slice, in order.
pub fn chars_of(s: &str) -> (r: Vec<char>)
    ensures
        r@ == s@,
{
    let n: usize = s.unicode_len();
    let mut out: Vec<char> = Vec::new();
    let mut i: usize = 0;
    while i < n
        invariant
            i <= n,
            n == s@.len(),
            out@ == s@.subrange(0, i as int),
        decreases n - i,
    {
        let c: char = s.get_char(i);
        out.push(c);
        proof {
            assert(out@ =~= s@.subrange(0, i + 1));
        }
        i = i + 1;
    }
    proof {
        assert(out@ =~= s@);
    }
    out
}

/// True when the text contains a carriage return or line feed.
pub open spec fn has_newline(s: Seq<char>) -> bool {
    exists|k: int| 0 <= k < s.len() && (s[k] == '\r' || s[k] == '\n')
}

/// The text with every carriage return and line feed removed.
pub open spec fn remove_newlines(s: Seq<char>) -> Seq<char>
    decreases s.len(),
{
    if s.len() == 0 {
        Seq::empty()
    } else if s.last() == '\r' || s.last() == '\n' {
        remove_newlines(s.drop_last())
    } else {
        remove_newlines(s.drop_last()).push(s.last())
    }
}

/// Whether the string contains a carriage return or line feed.
pub fn contains_newline(s: &str) -> (r: bool)
    ensures
        r == has_newline(s@),
{
    let chars: Vec<char> = chars_of(s);
    let n: usize = chars.len();
    let mut i: usize = 0;
    while i < n
        invariant
            i <= n,
            n == chars@.len(),
            chars@ == s@,
            forall|k: int| 0 <= k < i ==> !(chars@[k] == '\r' || chars@[k] == '\n'),
        decreases n - i,
    {
        let c: char = chars[i];
        if c == '\r' || c == '\n' {
            return true;
        }
        i = i + 1;
    }
    false
}

/// The string with every carriage return and line feed removed.
pub fn strip_newlines(s: &str) -> (r: String)
    ensures
        r@ == remove_newlines(s@),
{
    let chars: Vec<char> = chars_of(s);
    let n: usize = chars.len();
    let mut kept: Vec<char> = Vec::new();
    let mut i: usize = 0;
    proof {
        assert(chars@.subrange(0, 0) =~= Seq::<char>::empty());
    }
    while i < n
        invariant
            i <= n,
            n == chars@.len(),
            chars@ == s@,
            kept@ == remove_newlines(chars@.subrange(0, i as int)),
        decreases n - i,
    {
        let c: char = chars[i];
        proof {
            assert(chars@.subrange(0, i + 1).drop_last() =~= chars@.subrange(0, i as int));
            assert(chars@.subrange(0, i + 1).last() == c);
        }
        if !(c == '\r' || c == '\n') {
            kept.push(c);
        }
        i = i + 1;
    }
    proof {
        assert(chars@.subrange(0, n as int) =~= chars@);
    }
    string_from_chars(&kept)
}

/// Whether the two bytes can begin a well-formed multi-byte encoding.
fn continuation_in_range_exec(b0: u8, b1: u8) -> (r: bool)
    ensures
        r == continuation_in_range(b0, b1),
{
    if 0xc2 <= b0 && b0 <= 0xdf {
        0x80 <= b1 && b1 <= 0xbf
    } else if b0 == 0xe0 {
        0xa0 <= b1 && b1 <= 0xbf
    } else if (0xe1 <= b0 && b0 <= 0xec) || b0 == 0xee || b0 == 0xef {
        0x80 <= b1 && b1 <= 0xbf
    } else if b0 == 0xed {
        0x80 <= b1 && b1 <= 0x9f
    } else if b0 == 0xf0 {
        0x90 <= b1 && b1 <= 0xbf
    } else if 0xf1 <= b0 && b0 <= 0xf3 {
        0x80 <= b1 && b1 <= 0xbf
    } else if b0 == 0xf4 {
        0x80 <= b1 && b1 <= 0x8f
    } else {
        false
    }
}

/// Decodes arbitrary bytes into characters according to [`lossy_utf8`].
#[verifier::rlimit(30)]
pub fn decode_utf8_lossy_chars(bytes: &[u8]) -> (r: Vec<char>)
    ensures
        r@ == lossy_utf8(bytes@),
{
    let n: usize = bytes.len();
    let mut out: Vec<char> = Vec::new();
    let mut i: usize = 0;
    proof {
        assert(bytes@.skip(0) =~= bytes@);
        assert(Seq::<char>::empty() + lossy_utf8(bytes@) =~= lossy_utf8(bytes@));
    }
    while i < n
        invariant
            i <= n,
            n == bytes@.len(),
            out@ + lossy_utf8(bytes@.skip(i as int)) == lossy_utf8(bytes@),
        decreases n - i,
    {
        let ghost s: Seq<u8> = bytes@.skip(i as int);
        proof {
            assert(s.len() == n - i);
            assert forall|k: int| 0 <= k < s.len() implies s[k] == bytes@[i + k] by {}
        }
        let b0: u8 = bytes[i];
        // Decide the width claimed by the leading byte, gather the
        // continuation bytes, and compute the codepoint exactly as the
        // specification does.
        let mut width: usize = 0;
        let mut cp: u32 = 0;
        if b0 < 0x80 {
            width = 1;
            cp = (b0 & 0x7f) as u32;
        } else if 0xc0 <= b0 && b0 <= 0xdf {
            if n - i > 1 && 0x80 <= bytes[i + 1] && bytes[i + 1] <= 0xbf {
                let b1: u8 = bytes[i + 1];
                let c: u32 = (((b0 & 0x1f) as u32) << 6u32) | ((b1 & 0x3f) as u32);
                assert((((b0 & 0x1f) as u32) << 6u32) | ((b1 & 0x3f) as u32) <= 0x7ff)
                    by (bit_vector);
                if c >= 0x80 {
                    width = 2;
                    cp = c;
                }
            }
        } else if 0xe0 <= b0 && b0 <= 0xef {
            if n - i > 2 && 0x80 <= bytes[i + 1] && bytes[i + 1] <= 0xbf && 0x80 <= bytes[i + 2]
                && bytes[i + 2] <= 0xbf {
                let b1: u8 = bytes[i + 1];
                let b2: u8 = bytes[i + 2];
                let c: u32 = (((b0 & 0x0f) as u32) << 12u32) | (((b1 & 0x3f) as u32) << 6u32) | ((
                b2 & 0x3f) as u32);
                assert((((b0 & 0x0f) as u32) << 12u32) | (((b1 & 0x3f) as u32) << 6u32) | ((b2
                    & 0x3f) as u32) <= 0xffff) by (bit_vector);
                if c >= 0x800 && !(0xd800 <= c && c <= 0xdfff) {
                    width = 3;
                    cp = c;
                }
            }
        } else if 0xf0 <= b0 && b0 <= 0xf7 {
            if n - i > 3 && 0x80 <= bytes[i + 1] && bytes[i + 1] <= 0xbf && 0x80 <= bytes[i + 2]
                && bytes[i + 2] <= 0xbf && 0x80 <= bytes[i + 3] && bytes[i + 3] <= 0xbf {
                let b1: u8 = bytes[i + 1];
                let b2: u8 = bytes[i + 2];
                let b3: u8 = bytes[i + 3];
                let c: u32 = (((b0 & 0x07) as u32) << 18u32) | (((b1 & 0x3f) as u32) << 12u32) | ((
                (b2 & 0x3f) as u32) << 6u32) | ((b3 & 0x3f) as u32);
                if 0x10000 <= c && c <= 0x10ffff {
                    width = 4;
                    cp = c;
                }
            }
        }
        if width == 0 {
            // Consume the maximal subpart of the ill-formed subsequence.
            let adv: usize = if !(n - i > 1) {
                1
            } else if !continuation_in_range_exec(b0, bytes[i + 1]) {
                1
            } else if !(n - i > 2) {
                2
            } else if !(0x80 <= bytes[i + 2] && bytes[i + 2] <= 0xbf) {
                2
            } else if !(n - i > 3) {
                3
            } else if !(0x80 <= bytes[i + 3] && bytes[i + 3] <= 0xbf) {
                3
            } else {
                4
            };
            proof {
                assert(!valid_first_scalar(s));
                assert(adv as int == ill_formed_prefix_len(s));
                assert(lossy_utf8(s) == seq![placeholder_char()] + lossy_utf8(
                    s.skip(adv as int),
                ));
                assert(s.skip(adv as int) =~= bytes@.skip(i + adv));
            }
            out.push('\u{2753}');
            proof {
                assert(out@ + lossy_utf8(bytes@.skip(i + adv)) =~= lossy_utf8(bytes@));
            }
            i = i + adv;
        } else {
            proof {
                assert(valid_first_scalar(s));
                assert(decode_first_scalar(s) == cp);
                assert(length_of_first_scalar(s) == width as int);
                assert(pop_first_scalar(s) =~= bytes@.skip(i + width as int));
                assert(lossy_utf8(s) == seq![cp as char] + lossy_utf8(pop_first_scalar(s)));
            }
            let c: char = char_from_scalar(cp);
            out.push(c);
            proof {
                assert(out@ + lossy_utf8(bytes@.skip(i + width as int)) =~= lossy_utf8(bytes@));
            }
            i = i + width;
        }
    }
    proof {
        assert(bytes@.skip(n as int) =~= Seq::<u8>::empty());
        assert(lossy_utf8(Seq::<u8>::empty()) == Seq::<char>::empty());
        assert(out@ =~= lossy_utf8(bytes@));
    }
    out
}

} // verus!
