//! Data encoding and decoding for serial communication.
//!
//! [`encode_string`] turns text into the bytes to put on the wire and
//! [`decode_bytes`] renders received bytes as text, for each supported
//! [`DataType`].  Hex, binary, UTF-8/ASCII and UTF-32 conversion is pure
//! verified code; the charset-dependent schemes (UTF-16, GBK) call
//! `encoding_rs` through trusted wrappers whose results are named by
//! uninterpreted functions.

use vstd::prelude::*;
use vstd::utf8::encode_utf8;
use vstd::utf8::is_scalar;
use crate::text::chars_of;
use crate::text::char_from_scalar;
use crate::text::decode_utf8_lossy_chars;
use crate::text::lossy_utf8;
use crate::text::string_from_chars;

verus! {

/// Data encoding scheme for serial communication.
#[derive(Debug, Clone, Copy, PartialEq, Eq, Structural)]
pub enum DataType {
    /// Binary data.
    Binary,
    /// Hexadecimal encoding.
    Hex,
    /// UTF-8 text.
    Utf8,
    /// UTF-16 text.
    Utf16,
    /// UTF-32 text.
    Utf32,
    /// GBK encoding.
    Gbk,
    /// ASCII text.
    Ascii,
}

impl DataType {
    /// The short display name of the scheme.
    pub fn as_str(&self) -> (r: &'static str)
        ensures
            r@ == self.as_str_spec(),
    {
        match self {
            DataType::Binary => "Binary",
            DataType::Hex => "Hex",
            DataType::Utf8 => "UTF-8",
            DataType::Utf16 => "UTF-16",
            DataType::Utf32 => "UTF-32",
            DataType::Gbk => "GBK",
            DataType::Ascii => "ASCII",
        }
    }

    /// The short display name of the scheme.
    pub open spec fn as_str_spec(&self) -> Seq<char> {
        match self {
            DataType::Binary => "Binary"@,
            DataType::Hex => "Hex"@,
            DataType::Utf8 => "UTF-8"@,
            DataType::Utf16 => "UTF-16"@,
            DataType::Utf32 => "UTF-32"@,
            DataType::Gbk => "GBK"@,
            DataType::Ascii => "ASCII"@,
        }
    }

    /// The English name of the scheme.
    pub fn as_str_en(&self) -> (r: &'static str)
        ensures
            r@ == self.as_str_en_spec(),
    {
        match self {
            DataType::Binary => "Binary",
            DataType::Hex => "Hexadecimal",
            DataType::Utf8 => "UTF-8",
            DataType::Utf16 => "UTF-16",
            DataType::Utf32 => "UTF-32",
            DataType::Gbk => "GBK",
            DataType::Ascii => "ASCII",
        }
    }

    /// The English name of the scheme.
    pub open spec fn as_str_en_spec(&self) -> Seq<char> {
        match self {
            DataType::Binary => "Binary"@,
            DataType::Hex => "Hexadecimal"@,
            DataType::Utf8 => "UTF-8"@,
            DataType::Utf16 => "UTF-16"@,
            DataType::Utf32 => "UTF-32"@,
            DataType::Gbk => "GBK"@,
            DataType::Ascii => "ASCII"@,
        }
    }

    /// A one-line description of the scheme.
    pub fn description(&self) -> (r: &'static str)
        ensures
            r@ == self.description_spec(),
    {
        match self {
            DataType::Binary => "Binary data format",
            DataType::Hex => "Hexadecimal data format",
            DataType::Utf8 => "UTF-8 text encoding",
            DataType::Utf16 => "UTF-16 text encoding",
            DataType::Utf32 => "UTF-32 text encoding",
            DataType::Gbk => "GBK Chinese encoding",
            DataType::Ascii => "ASCII text encoding",
        }
    }

    /// A one-line description of the scheme.
    pub open spec fn description_spec(&self) -> Seq<char> {
        match self {
            DataType::Binary => "Binary data format"@,
            DataType::Hex => "Hexadecimal data format"@,
            DataType::Utf8 => "UTF-8 text encoding"@,
            DataType::Utf16 => "UTF-16 text encoding"@,
            DataType::Utf32 => "UTF-32 text encoding"@,
            DataType::Gbk => "GBK Chinese encoding"@,
            DataType::Ascii => "ASCII text encoding"@,
        }
    }
}

// ---------------------------------------------------------------------------
// Hexadecimal
// ---------------------------------------------------------------------------
/// True for the characters `0-9`, `a-f` and `A-F`.
pub open spec fn is_hex_digit(c: char) -> bool {
    let u = c as u32;
    (48 <= u <= 57) || (97 <= u <= 102) || (65 <= u <= 70)
}

/// The numeric value of a hex digit character.
pub open spec fn hex_digit_val(c: char) -> u8
    recommends
        is_hex_digit(c),
{
    let u = c as u32;
    if 48 <= u <= 57 {
        (u - 48) as u8
    } else if 97 <= u <= 102 {
        (u - 87) as u8
    } else {
        (u - 55) as u8
    }
}

/// The input with every character that is not a hex digit removed.
pub open spec fn hex_clean(s: Seq<char>) -> Seq<char>
    decreases s.len(),
{
    if s.len() == 0 {
        Seq::empty()
    } else if is_hex_digit(s.last()) {
        hex_clean(s.drop_last()).push(s.last())
    } else {
        hex_clean(s.drop_last())
    }
}

/// Pads a digit string with one leading zero nibble when its length is odd.
pub open spec fn hex_pad(s: Seq<char>) -> Seq<char> {
    if s.len() % 2 == 1 {
        seq!['0'] + s
    } else {
        s
    }
}

/// Parses consecutive pairs of hex digits as bytes; an unpaired trailing
/// digit is dropped.
pub open spec fn hex_pairs(s: Seq<char>) -> Seq<u8>
    decreases s.len(),
{
    if s.len() < 2 {
        Seq::empty()
    } else {
        seq![(hex_digit_val(s[0]) * 16 + hex_digit_val(s[1])) as u8] + hex_pairs(s.skip(2))
    }
}

/// What hex encoding of a text yields: clean, pad to even length, parse pairs.
pub open spec fn encode_hex_spec(s: Seq<char>) -> Seq<u8> {
    hex_pairs(hex_pad(hex_clean(s)))
}

/// The lowercase hex digit character for a value below 16.
pub open spec fn hex_char_of(v: u8) -> char
    recommends
        v < 16,
{
    if v < 10 {
        ((48 + v) as u8) as char
    } else {
        ((87 + v) as u8) as char
    }
}

/// The lowercase hex rendering of a byte sequence, two digits per byte.
pub open spec fn bytes_to_hex(b: Seq<u8>) -> Seq<char>
    decreases b.len(),
{
    if b.len() == 0 {
        Seq::empty()
    } else {
        seq![hex_char_of((b[0] / 16) as u8), hex_char_of((b[0] % 16) as u8)] + bytes_to_hex(
            b.drop_first(),
        )
    }
}

/// Every character of a cleaned string is a hex digit.
pub proof fn lemma_hex_clean_digits(s: Seq<char>)
    ensures
        forall|k: int| 0 <= k < hex_clean(s).len() ==> is_hex_digit(#[trigger] hex_clean(s)[k]),
    decreases s.len(),
{
    if s.len() == 0 {
    } else {
        lemma_hex_clean_digits(s.drop_last());
        let t = hex_clean(s.drop_last());
        assert forall|k: int| 0 <= k < hex_clean(s).len() implies is_hex_digit(
            hex_clean(s)[k],
        ) by {
            if is_hex_digit(s.last()) {
                assert(hex_clean(s) == t.push(s.last()));
                if k < t.len() {
                    assert(hex_clean(s)[k] == t[k]);
                }
            } else {
                assert(hex_clean(s) == t);
            }
        }
    }
}

/// The numeric value of a hex digit character.
fn hex_digit_val_exec(c: char) -> (v: u8)
    requires
        is_hex_digit(c),
    ensures
        v == hex_digit_val(c),
        v < 16,
{
    let u: u32 = c as u32;
    if 48 <= u && u <= 57 {
        (u - 48) as u8
    } else if 97 <= u && u <= 102 {
        (u - 87) as u8
    } else {
        (u - 55) as u8
    }
}

/// The lowercase hex digit character for a value below 16.
fn hex_char_exec(v: u8) -> (c: char)
    requires
        v < 16,
    ensures
        c == hex_char_of(v),
{
    if v < 10 {
        (48 + v) as char
    } else {
        (87 + v) as char
    }
}

/// Encodes a hex string to bytes.
///
/// All characters that are not hex digits are ignored; a leading zero nibble
/// is added when an odd number of digits remains.
pub fn encode_hex(source_data: &str) -> (r: Vec<u8>)
    ensures
        r@ == encode_hex_spec(source_data@),
{
    let chars: Vec<char> = chars_of(source_data);
    let n: usize = chars.len();
    let mut digits: Vec<char> = Vec::new();
    let mut i: usize = 0;
    proof {
        assert(chars@.subrange(0, 0) =~= Seq::<char>::empty());
    }
    while i < n
        invariant
            i <= n,
            n == chars@.len(),
            chars@ == source_data@,
            digits@ == hex_clean(chars@.subrange(0, i as int)),
        decreases n - i,
    {
        let c: char = chars[i];
        proof {
            assert(chars@.subrange(0, i + 1).drop_last() =~= chars@.subrange(0, i as int));
            assert(chars@.subrange(0, i + 1).last() == c);
        }
        let u: u32 = c as u32;
        if (48 <= u && u <= 57) || (97 <= u && u <= 102) || (65 <= u && u <= 70) {
            digits.push(c);
        }
        i = i + 1;
    }
    proof {
        assert(chars@.subrange(0, n as int) =~= chars@);
        lemma_hex_clean_digits(source_data@);
    }
    if digits.len() % 2 == 1 {
        digits.insert(0, '0');
        proof {
            assert(digits@ =~= hex_pad(hex_clean(source_data@)));
        }
    }
    let m: usize = digits.len();
    let mut out: Vec<u8> = Vec::new();
    let mut j: usize = 0;
    proof {
        assert(digits@.skip(0) =~= digits@);
        assert(Seq::<u8>::empty() + hex_pairs(digits@) =~= hex_pairs(digits@));
    }
    while j < m
        invariant
            j <= m,
            j % 2 == 0,
            m % 2 == 0,
            m == digits@.len(),
            digits@ == hex_pad(hex_clean(source_data@)),
            forall|k: int| 0 <= k < m ==> is_hex_digit(#[trigger] digits@[k]),
            out@ + hex_pairs(digits@.skip(j as int)) == hex_pairs(digits@),
        decreases m - j,
    {
        let c1: char = digits[j];
        let c2: char = digits[j + 1];
        let v1: u8 = hex_digit_val_exec(c1);
        let v2: u8 = hex_digit_val_exec(c2);
        let byte: u8 = v1 * 16 + v2;
        proof {
            let s = digits@.skip(j as int);
            assert(s[0] == digits@[j as int]);
            assert(s[1] == digits@[j + 1]);
            assert(s.skip(2) =~= digits@.skip(j + 2));
            assert(hex_pairs(s) == seq![byte] + hex_pairs(s.skip(2)));
        }
        out.push(byte);
        proof {
            assert(out@ + hex_pairs(digits@.skip(j + 2)) =~= hex_pairs(digits@));
        }
        j = j + 2;
    }
    proof {
        assert(digits@.skip(m as int) =~= Seq::<char>::empty());
        assert(out@ =~= hex_pairs(digits@));
    }
    out
}

/// The lowercase hex rendering of a byte slice.
fn hex_chars_of_bytes(bytes: &[u8]) -> (r: Vec<char>)
    ensures
        r@ == bytes_to_hex(bytes@),
{
    let n: usize = bytes.len();
    let mut out: Vec<char> = Vec::new();
    let mut i: usize = 0;
    proof {
        assert(bytes@.skip(0) =~= bytes@);
        assert(Seq::<char>::empty() + bytes_to_hex(bytes@) =~= bytes_to_hex(bytes@));
    }
    while i < n
        invariant
            i <= n,
            n == bytes@.len(),
            out@ + bytes_to_hex(bytes@.skip(i as int)) == bytes_to_hex(bytes@),
        decreases n - i,
    {
        let b: u8 = bytes[i];
        let hi: u8 = b / 16;
        let lo: u8 = b % 16;
        proof {
            let s = bytes@.skip(i as int);
            assert(s[0] == bytes@[i as int]);
            assert(s.drop_first() =~= bytes@.skip(i + 1));
            assert(bytes_to_hex(s) == seq![hex_char_of(hi), hex_char_of(lo)] + bytes_to_hex(
                s.drop_first(),
            ));
        }
        out.push(hex_char_exec(hi));
        out.push(hex_char_exec(lo));
        proof {
            assert(out@ + bytes_to_hex(bytes@.skip(i + 1)) =~= bytes_to_hex(bytes@));
        }
        i = i + 1;
    }
    proof {
        assert(bytes@.skip(n as int) =~= Seq::<u8>::empty());
        assert(out@ =~= bytes_to_hex(bytes@));
    }
    out
}

// ---------------------------------------------------------------------------
// Binary rendering
// ---------------------------------------------------------------------------
/// The `0`/`1` character of one bit of a byte, bit 7 first.
pub open spec fn bit_char(b: u8, k: int) -> char {
    if ((b as u32) >> (k as u32)) & 1 == 1 {
        '1'
    } else {
        '0'
    }
}

/// The eight binary digit characters of a byte, most significant bit first.
pub open spec fn byte_bits(b: u8) -> Seq<char> {
    Seq::new(8, |i: int| bit_char(b, 7 - i))
}

/// All bytes rendered as eight binary digits each, joined by single spaces.
pub open spec fn bytes_to_bits(b: Seq<u8>) -> Seq<char>
    decreases b.len(),
{
    if b.len() == 0 {
        Seq::empty()
    } else if b.len() == 1 {
        byte_bits(b[0])
    } else {
        byte_bits(b[0]) + seq![' '] + bytes_to_bits(b.drop_first())
    }
}

/// Renders a byte slice as space-separated binary digit groups.
fn bits_chars_of_bytes(bytes: &[u8]) -> (r: Vec<char>)
    ensures
        r@ == bytes_to_bits(bytes@),
{
    let n: usize = bytes.len();
    let mut out: Vec<char> = Vec::new();
    let mut i: usize = 0;
    proof {
        assert(bytes@.skip(0) =~= bytes@);
        assert(Seq::<char>::empty() + bytes_to_bits(bytes@) =~= bytes_to_bits(bytes@));
    }
    while i < n
        invariant
            i <= n,
            n == bytes@.len(),
            out@ + bytes_to_bits(bytes@.skip(i as int)) == bytes_to_bits(bytes@),
        decreases n - i,
    {
        let b: u8 = bytes[i];
        let v: u32 = b as u32;
        let ghost before = out@;
        let mut k: usize = 0;
        while k < 8
            invariant
                k <= 8,
                v == b as u32,
                out@ == before + byte_bits(b).subrange(0, k as int),
            decreases 8 - k,
        {
            let shift: u32 = (7 - k) as u32;
            let c: char = if (v >> shift) & 1 == 1 {
                '1'
            } else {
                '0'
            };
            out.push(c);
            proof {
                assert(out@ =~= before + byte_bits(b).subrange(0, k + 1));
            }
            k = k + 1;
        }
        proof {
            assert(byte_bits(b).subrange(0, 8) =~= byte_bits(b));
            let s = bytes@.skip(i as int);
            assert(s[0] == bytes@[i as int]);
            assert(s.drop_first() =~= bytes@.skip(i + 1));
        }
        if i + 1 < n {
            out.push(' ');
            proof {
                assert(out@ + bytes_to_bits(bytes@.skip(i + 1)) =~= bytes_to_bits(bytes@));
            }
        } else {
            proof {
                assert(bytes@.skip(i as int).len() == 1);
                assert(out@ + bytes_to_bits(bytes@.skip(i + 1)) =~= bytes_to_bits(bytes@));
            }
        }
        i = i + 1;
    }
    proof {
        assert(bytes@.skip(n as int) =~= Seq::<u8>::empty());
        assert(out@ =~= bytes_to_bits(bytes@));
    }
    out
}

// ---------------------------------------------------------------------------
// UTF-32 (little-endian) rendering
// ---------------------------------------------------------------------------
/// The little-endian 32-bit value of four bytes.
pub open spec fn u32_le(b0: u8, b1: u8, b2: u8, b3: u8) -> u32 {
    (b0 + 256 * b1 + 65536 * b2 + 16777216 * b3) as u32
}

/// Groups bytes into little-endian 32-bit codepoints; valid Unicode scalars
/// become their character, anything else the replacement character, and a
/// trailing incomplete group is dropped.
pub open spec fn utf32_chars(b: Seq<u8>) -> Seq<char>
    decreases b.len(),
{
    if b.len() < 4 {
        Seq::empty()
    } else {
        let cp = u32_le(b[0], b[1], b[2], b[3]);
        seq![if is_scalar(cp) {
            cp as char
        } else {
            '\u{fffd}'
        }] + utf32_chars(b.skip(4))
    }
}

/// Decodes a byte slice as little-endian UTF-32 codepoint groups.
fn utf32_chars_of_bytes(bytes: &[u8]) -> (r: Vec<char>)
    ensures
        r@ == utf32_chars(bytes@),
{
    let n: usize = bytes.len();
    let mut out: Vec<char> = Vec::new();
    let mut i: usize = 0;
    proof {
        assert(bytes@.skip(0) =~= bytes@);
        assert(Seq::<char>::empty() + utf32_chars(bytes@) =~= utf32_chars(bytes@));
    }
    while n - i >= 4
        invariant
            i <= n,
            n == bytes@.len(),
            out@ + utf32_chars(bytes@.skip(i as int)) == utf32_chars(bytes@),
        decreases n - i,
    {
        let b0: u8 = bytes[i];
        let b1: u8 = bytes[i + 1];
        let b2: u8 = bytes[i + 2];
        let b3: u8 = bytes[i + 3];
        let cp: u32 = (b0 as u32) + 256 * (b1 as u32) + 65536 * (b2 as u32) + 16777216 * (
        b3 as u32);
        proof {
            let s = bytes@.skip(i as int);
            assert(s[0] == bytes@[i as int]);
            assert(s[1] == bytes@[i + 1]);
            assert(s[2] == bytes@[i + 2]);
            assert(s[3] == bytes@[i + 3]);
            assert(s.skip(4) =~= bytes@.skip(i + 4));
            assert(cp == u32_le(b0, b1, b2, b3));
        }
        let c: char = if cp < 0xd800 || (0xe000 <= cp && cp <= 0x10ffff) {
            char_from_scalar(cp)
        } else {
            '\u{fffd}'
        };
        out.push(c);
        proof {
            assert(out@ + utf32_chars(bytes@.skip(i + 4)) =~= utf32_chars(bytes@));
        }
        i = i + 4;
    }
    proof {
        assert(utf32_chars(bytes@.skip(i as int)) == Seq::<char>::empty());
        assert(out@ =~= utf32_chars(bytes@));
    }
    out
}

// ---------------------------------------------------------------------------
// UTF-16LE and UTF-32LE encoding
// ---------------------------------------------------------------------------
/// The little-endian UTF-16 bytes of a text: one code unit for the basic
/// plane, a surrogate pair for supplementary characters.
pub open spec fn utf16le_bytes(s: Seq<char>) -> Seq<u8>
    decreases s.len(),
{
    if s.len() == 0 {
        Seq::empty()
    } else {
        let cp = s[0] as u32;
        (if cp < 0x10000 {
            seq![(cp % 256) as u8, ((cp / 256) % 256) as u8]
        } else {
            let cpp = cp - 0x10000;
            let hs = 0xD800 + cpp / 0x400;
            let ls = 0xDC00 + cpp % 0x400;
            seq![(hs % 256) as u8, (hs / 256) as u8, (ls % 256) as u8, (ls / 256) as u8]
        }) + utf16le_bytes(s.drop_first())
    }
}

/// The little-endian UTF-32 bytes of a text: four bytes per character.
pub open spec fn utf32le_bytes(s: Seq<char>) -> Seq<u8>
    decreases s.len(),
{
    if s.len() == 0 {
        Seq::empty()
    } else {
        let cp = s[0] as u32;
        seq![
            (cp % 256) as u8,
            ((cp / 256) % 256) as u8,
            ((cp / 65536) % 256) as u8,
            ((cp / 16777216) % 256) as u8,
        ] + utf32le_bytes(s.drop_first())
    }
}

/// Encodes characters as little-endian UTF-16.
fn utf16le_encode(chars: &Vec<char>) -> (r: Vec<u8>)
    ensures
        r@ == utf16le_bytes(chars@),
{
    let n: usize = chars.len();
    let mut out: Vec<u8> = Vec::new();
    let mut i: usize = 0;
    proof {
        assert(chars@.skip(0) =~= chars@);
        assert(Seq::<u8>::empty() + utf16le_bytes(chars@) =~= utf16le_bytes(chars@));
    }
    while i < n
        invariant
            i <= n,
            n == chars@.len(),
            out@ + utf16le_bytes(chars@.skip(i as int)) == utf16le_bytes(chars@),
        decreases n - i,
    {
        let c: char = chars[i];
        let cp: u32 = c as u32;
        proof {
            vstd::utf8::char_is_scalar(c);
            let s = chars@.skip(i as int);
            assert(s[0] == chars@[i as int]);
            assert(s.drop_first() =~= chars@.skip(i + 1));
        }
        if cp < 0x10000 {
            out.push((cp % 256) as u8);
            out.push(((cp / 256) % 256) as u8);
        } else {
            let cpp: u32 = cp - 0x10000;
            let hs: u32 = 0xD800 + cpp / 0x400;
            let ls: u32 = 0xDC00 + cpp % 0x400;
            out.push((hs % 256) as u8);
            out.push((hs / 256) as u8);
            out.push((ls % 256) as u8);
            out.push((ls / 256) as u8);
        }
        proof {
            assert(out@ + utf16le_bytes(chars@.skip(i + 1)) =~= utf16le_bytes(chars@));
        }
        i = i + 1;
    }
    proof {
        assert(chars@.skip(n as int) =~= Seq::<char>::empty());
        assert(out@ =~= utf16le_bytes(chars@));
    }
    out
}

/// Encodes characters as little-endian UTF-32.
fn utf32le_encode(chars: &Vec<char>) -> (r: Vec<u8>)
    ensures
        r@ == utf32le_bytes(chars@),
{
    let n: usize = chars.len();
    let mut out: Vec<u8> = Vec::new();
    let mut i: usize = 0;
    proof {
        assert(chars@.skip(0) =~= chars@);
        assert(Seq::<u8>::empty() + utf32le_bytes(chars@) =~= utf32le_bytes(chars@));
    }
    while i < n
        invariant
            i <= n,
            n == chars@.len(),
            out@ + utf32le_bytes(chars@.skip(i as int)) == utf32le_bytes(chars@),
        decreases n - i,
    {
        let c: char = chars[i];
        let cp: u32 = c as u32;
        proof {
            let s = chars@.skip(i as int);
            assert(s[0] == chars@[i as int]);
            assert(s.drop_first() =~= chars@.skip(i + 1));
        }
        out.push((cp % 256) as u8);
        out.push(((cp / 256) % 256) as u8);
        out.push(((cp / 65536) % 256) as u8);
        out.push(((cp / 16777216) % 256) as u8);
        proof {
            assert(out@ + utf32le_bytes(chars@.skip(i + 1)) =~= utf32le_bytes(chars@));
        }
        i = i + 1;
    }
    proof {
        assert(chars@.skip(n as int) =~= Seq::<char>::empty());
        assert(out@ =~= utf32le_bytes(chars@));
    }
    out
}

// ---------------------------------------------------------------------------
// Charset-dependent schemes, through encoding_rs
// ---------------------------------------------------------------------------
/// The bytes that the GBK encoder produces for a text.
pub uninterp spec fn gbk_encoding_of(text: Seq<char>) -> Seq<u8>;

/// The text that the GBK decoder produces for a byte sequence.
pub uninterp spec fn gbk_decoding_of(bytes: Seq<u8>) -> Seq<char>;

/// The text that the UTF-16LE decoder produces for a byte sequence.
pub uninterp spec fn utf16le_decoding_of(bytes: Seq<u8>) -> Seq<char>;

/// Relies on encoding_rs's `Encoding::encode` on `GBK`: the produced bytes
/// are a pure function of the input text, and empty input yields no bytes.
#[verifier::external_body]
fn encode_gbk(text: &str) -> (r: Vec<u8>)
    ensures
        r@ == gbk_encoding_of(text@),
        text@.len() == 0 ==> r@.len() == 0,
{
    encoding_rs::GBK.encode(text).0.into_owned()
}

/// Relies on encoding_rs's `Encoding::decode` on `GBK`: the produced text is
/// a pure function of the input bytes, and empty input yields no text.
#[verifier::external_body]
fn decode_gbk(bytes: &[u8]) -> (r: String)
    ensures
        r@ == gbk_decoding_of(bytes@),
        bytes@.len() == 0 ==> r@.len() == 0,
{
    let (text, _, _) = encoding_rs::GBK.decode(bytes);
    text.into_owned()
}

/// Relies on encoding_rs's `Encoding::decode` on `UTF_16LE`: the produced
/// text is a pure function of the input bytes, and empty input yields no
/// text.
#[verifier::external_body]
fn decode_utf16le(bytes: &[u8]) -> (r: String)
    ensures
        r@ == utf16le_decoding_of(bytes@),
        bytes@.len() == 0 ==> r@.len() == 0,
{
    let (text, _, _) = encoding_rs::UTF_16LE.decode(bytes);
    text.into_owned()
}

// ---------------------------------------------------------------------------
// The codec entry points
// ---------------------------------------------------------------------------
/// The bytes that encoding a text under the given scheme yields.
pub open spec fn encode_string_spec(text: Seq<char>, data_type: DataType) -> Seq<u8> {
    match data_type {
        DataType::Hex => encode_hex_spec(text),
        DataType::Utf8 | DataType::Ascii | DataType::Binary => encode_utf8(text),
        DataType::Utf16 => utf16le_bytes(text),
        DataType::Utf32 => utf32le_bytes(text),
        DataType::Gbk => gbk_encoding_of(text),
    }
}

/// The text that decoding bytes under the given scheme yields.
pub open spec fn decode_bytes_spec(bytes: Seq<u8>, data_type: DataType) -> Seq<char> {
    match data_type {
        DataType::Hex => bytes_to_hex(bytes),
        DataType::Utf8 | DataType::Ascii => lossy_utf8(bytes),
        DataType::Binary => bytes_to_bits(bytes),
        DataType::Utf16 => utf16le_decoding_of(bytes),
        DataType::Utf32 => utf32_chars(bytes),
        DataType::Gbk => gbk_decoding_of(bytes),
    }
}

// ---------------------------------------------------------------------------
// Codec laws
// ---------------------------------------------------------------------------
/// True for the characters `0-9` and `a-f`, the alphabet that hex decoding
/// produces.
pub open spec fn is_lower_hex_digit(c: char) -> bool {
    let u = c as u32;
    (48 <= u <= 57) || (97 <= u <= 102)
}

/// Parsing pairs halves the length, dropping an unpaired trailing digit.
pub proof fn lemma_hex_pairs_len(s: Seq<char>)
    ensures
        hex_pairs(s).len() == s.len() / 2,
    decreases s.len(),
{
    if s.len() < 2 {
    } else {
        lemma_hex_pairs_len(s.skip(2));
    }
}

/// Cleaning a string of hex digits leaves it unchanged.
pub proof fn lemma_hex_clean_of_digits(s: Seq<char>)
    requires
        forall|k: int| 0 <= k < s.len() ==> is_hex_digit(#[trigger] s[k]),
    ensures
        hex_clean(s) == s,
    decreases s.len(),
{
    if s.len() == 0 {
        assert(hex_clean(s) =~= s);
    } else {
        lemma_hex_clean_of_digits(s.drop_last());
        assert(s.last() == s[s.len() - 1]);
        assert(hex_clean(s) =~= s);
    }
}

/// Cleaning distributes over concatenation.
pub proof fn lemma_hex_clean_concat(a: Seq<char>, b: Seq<char>)
    ensures
        hex_clean(a + b) == hex_clean(a) + hex_clean(b),
    decreases b.len(),
{
    if b.len() == 0 {
        assert(a + b =~= a);
        assert(hex_clean(a) + hex_clean(b) =~= hex_clean(a));
    } else {
        lemma_hex_clean_concat(a, b.drop_last());
        assert((a + b).drop_last() =~= a + b.drop_last());
        assert((a + b).last() == b.last());
        if is_hex_digit(b.last()) {
            assert(hex_clean(a + b) == hex_clean(a + b.drop_last()).push(b.last()));
            assert(hex_clean(b) == hex_clean(b.drop_last()).push(b.last()));
            assert(hex_clean(a) + hex_clean(b) =~= (hex_clean(a) + hex_clean(
                b.drop_last(),
            )).push(b.last()));
        } else {
            assert(hex_clean(a + b) == hex_clean(a + b.drop_last()));
            assert(hex_clean(b) == hex_clean(b.drop_last()));
        }
    }
}

/// Hex encoding ignores characters that are not hex digits: removing such a
/// character anywhere in the input does not change the encoded bytes.
pub proof fn lemma_hex_encode_ignores_non_hex(a: Seq<char>, c: char, b: Seq<char>)
    requires
        !is_hex_digit(c),
    ensures
        encode_hex_spec(a + seq![c] + b) == encode_hex_spec(a + b),
{
    lemma_hex_clean_concat(a + seq![c], b);
    lemma_hex_clean_concat(a, seq![c]);
    lemma_hex_clean_concat(a, b);
    assert(seq![c].drop_last() =~= Seq::<char>::empty());
    assert(seq![c].last() == c);
    assert(hex_clean(Seq::<char>::empty()) =~= Seq::<char>::empty());
    assert(hex_clean(seq![c]) =~= Seq::<char>::empty());
    assert(hex_clean(a + seq![c]) =~= hex_clean(a));
    assert(hex_clean(a + seq![c] + b) =~= hex_clean(a + b));
}

/// Hex encoding of an input whose cleaned form has odd length pads with one
/// leading zero nibble: the first byte carries only the first digit's value.
pub proof fn lemma_hex_encode_odd_pads(s: Seq<char>)
    requires
        hex_clean(s).len() % 2 == 1,
    ensures
        encode_hex_spec(s) == hex_pairs(seq!['0'] + hex_clean(s)),
        encode_hex_spec(s).len() == (hex_clean(s).len() + 1) / 2,
        encode_hex_spec(s)[0] == hex_digit_val(hex_clean(s)[0]),
{
    let padded = seq!['0'] + hex_clean(s);
    lemma_hex_pairs_len(padded);
    assert(padded[0] == '0');
    assert(padded[1] == hex_clean(s)[0]);
    assert(hex_pairs(padded)[0] == (hex_digit_val(padded[0]) * 16 + hex_digit_val(
        padded[1],
    )) as u8);
}

/// The lowercase hex digit of a digit's value is that digit again.
proof fn lemma_hex_char_of_val(c: char)
    requires
        is_lower_hex_digit(c),
    ensures
        hex_char_of(hex_digit_val(c)) == c,
{
    vstd::utf8::char_u32_cast(c, c as u32);
}

/// Rendering parsed hex pairs yields the original digits, for even-length
/// strings over the lowercase hex alphabet.
pub proof fn lemma_hex_pairs_inverse(s: Seq<char>)
    requires
        s.len() % 2 == 0,
        forall|k: int| 0 <= k < s.len() ==> is_lower_hex_digit(#[trigger] s[k]),
    ensures
        bytes_to_hex(hex_pairs(s)) == s,
    decreases s.len(),
{
    if s.len() == 0 {
        assert(bytes_to_hex(hex_pairs(s)) =~= s);
    } else {
        let v1 = hex_digit_val(s[0]);
        let v2 = hex_digit_val(s[1]);
        let b = (v1 * 16 + v2) as u8;
        assert(hex_pairs(s) == seq![b] + hex_pairs(s.skip(2)));
        assert(forall|k: int|
            0 <= k < s.skip(2).len() ==> is_lower_hex_digit(#[trigger] s.skip(2)[k]));
        lemma_hex_pairs_inverse(s.skip(2));
        let rest = hex_pairs(s.skip(2));
        let all = seq![b] + rest;
        assert(all[0] == b);
        assert(all.drop_first() =~= rest);
        assert(b / 16 == v1 && b % 16 == v2);
        lemma_hex_char_of_val(s[0]);
        lemma_hex_char_of_val(s[1]);
        assert(bytes_to_hex(all) == seq![hex_char_of((b / 16) as u8), hex_char_of(
            (b % 16) as u8,
        )] + bytes_to_hex(rest));
        assert(bytes_to_hex(hex_pairs(s)) =~= s);
    }
}

/// Round trip for the hex scheme: decoding the encoding of an even-length
/// string of lowercase hex digits yields that string again.
pub proof fn lemma_round_trip_hex(text: Seq<char>)
    requires
        text.len() % 2 == 0,
        forall|k: int| 0 <= k < text.len() ==> is_lower_hex_digit(#[trigger] text[k]),
    ensures
        decode_bytes_spec(encode_string_spec(text, DataType::Hex), DataType::Hex) == text,
{
    lemma_hex_clean_of_digits(text);
    lemma_hex_pairs_inverse(text);
}

/// Round trip for the UTF-32 scheme: decoding the encoding of any text
/// yields that text again.
pub proof fn lemma_round_trip_utf32(text: Seq<char>)
    ensures
        decode_bytes_spec(encode_string_spec(text, DataType::Utf32), DataType::Utf32) == text,
    decreases text.len(),
{
    if text.len() == 0 {
        assert(utf32_chars(utf32le_bytes(text)) =~= text);
    } else {
        let cp = text[0] as u32;
        vstd::utf8::char_is_scalar(text[0]);
        vstd::utf8::char_u32_cast(text[0], cp);
        let rest = utf32le_bytes(text.drop_first());
        let bytes = utf32le_bytes(text);
        let b0 = (cp % 256) as u8;
        let b1 = ((cp / 256) % 256) as u8;
        let b2 = ((cp / 65536) % 256) as u8;
        let b3 = ((cp / 16777216) % 256) as u8;
        assert(bytes == seq![b0, b1, b2, b3] + rest);
        assert(bytes.len() >= 4);
        assert(bytes[0] == b0 && bytes[1] == b1 && bytes[2] == b2 && bytes[3] == b3);
        assert(u32_le(b0, b1, b2, b3) == cp);
        assert(bytes.skip(4) =~= rest);
        lemma_round_trip_utf32(text.drop_first());
        assert(utf32_chars(bytes) =~= text);
    }
}

/// Round trip for the UTF-8 and ASCII schemes: decoding the encoding of any
/// text yields that text again.
pub proof fn lemma_round_trip_text(text: Seq<char>, data_type: DataType)
    requires
        data_type == DataType::Utf8 || data_type == DataType::Ascii,
    ensures
        decode_bytes_spec(encode_string_spec(text, data_type), data_type) == text,
{
    vstd::utf8::encode_utf8_valid_utf8(text);
    crate::text::lemma_lossy_utf8_of_valid(encode_utf8(text));
    vstd::utf8::encode_utf8_decode_utf8(text);
}

/// Encodes a string to bytes under the given scheme.
pub fn encode_string(source_data: &str, data_type: DataType) -> (r: Vec<u8>)
    ensures
        r@ == encode_string_spec(source_data@, data_type),
{
    match data_type {
        DataType::Hex => encode_hex(source_data),
        DataType::Utf8 | DataType::Ascii | DataType::Binary => source_data.as_bytes_vec(),
        DataType::Utf16 => {
            let chars = chars_of(source_data);
            utf16le_encode(&chars)
        },
        DataType::Utf32 => {
            let chars = chars_of(source_data);
            utf32le_encode(&chars)
        },
        DataType::Gbk => encode_gbk(source_data),
    }
}

/// Decodes bytes to a string under the given scheme.
pub fn decode_bytes(source_data: &[u8], data_type: DataType) -> (r: String)
    ensures
        r@ == decode_bytes_spec(source_data@, data_type),
{
    match data_type {
        DataType::Hex => {
            let chars = hex_chars_of_bytes(source_data);
            string_from_chars(&chars)
        },
        DataType::Utf8 | DataType::Ascii => {
            let chars = decode_utf8_lossy_chars(source_data);
            string_from_chars(&chars)
        },
        DataType::Binary => {
            let chars = bits_chars_of_bytes(source_data);
            string_from_chars(&chars)
        },
        DataType::Utf16 => decode_utf16le(source_data),
        DataType::Utf32 => {
            let chars = utf32_chars_of_bytes(source_data);
            string_from_chars(&chars)
        },
        DataType::Gbk => decode_gbk(source_data),
    }
}

} // verus!
