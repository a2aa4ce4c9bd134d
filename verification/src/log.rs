//! Traffic-log formatting: sanitized log file names, timestamps, and the
//! append-only entry format `[<timestamp> <direction>]\n<payload>`.
//!
//! Everything here is pure computation over plain values; the caller appends
//! the rendered bytes to the log file.  Only reading the clock is trusted.

use vstd::prelude::*;
use vstd::utf8::encode_utf8;
use chrono::Datelike;
use chrono::Timelike;
use crate::text::chars_of;
use crate::text::string_from_chars;

verus! {

/// Direction tag for a traffic-log entry.
#[derive(Clone, Copy, Debug, PartialEq, Eq, Structural)]
pub enum DataSource {
    /// Data was written/sent.
    Write,
    /// Data was read/received.
    Read,
    /// Error message.
    Error,
}

impl DataSource {
    /// The one-character direction tag of this source.
    pub open spec fn tag_spec(&self) -> Seq<char> {
        match self {
            DataSource::Write => "T"@,
            DataSource::Read => "R"@,
            DataSource::Error => "E"@,
        }
    }

    /// The one-character direction tag of this source.
    pub fn as_str(&self) -> (r: &'static str)
        ensures
            r@ == self.tag_spec(),
    {
        match self {
            DataSource::Write => "T",
            DataSource::Read => "R",
            DataSource::Error => "E",
        }
    }
}

// ---------------------------------------------------------------------------
// Log file name sanitization
// ---------------------------------------------------------------------------
/// True for the path separator characters.
pub open spec fn is_separator(c: char) -> bool {
    c == '/' || c == '\\'
}

/// The input with every leading occurrence of one character removed.
pub open spec fn strip_leading(s: Seq<char>, c: char) -> Seq<char>
    decreases s.len(),
{
    if s.len() > 0 && s[0] == c {
        strip_leading(s.drop_first(), c)
    } else {
        s
    }
}

/// The input with every path separator replaced by an underscore.
pub open spec fn replace_separators(s: Seq<char>) -> Seq<char> {
    Seq::new(
        s.len(),
        |i: int|
            if is_separator(s[i]) {
                '_'
            } else {
                s[i]
            },
    )
}

/// The sanitized path of a log file: leading separators stripped, the rest
/// replaced by underscores, placed under the fixed logs directory.
pub open spec fn sanitized_log_path(name: Seq<char>) -> Seq<char> {
    "logs/"@ + replace_separators(strip_leading(strip_leading(name, '/'), '\\'))
}

/// Builds the sanitized log file path for a user-provided name, so that the
/// file always stays under the fixed logs directory.
pub fn sanitize_log_name(name: &str) -> (r: String)
    ensures
        r@ == sanitized_log_path(name@),
{
    let chars: Vec<char> = chars_of(name);
    let n: usize = chars.len();
    let mut i: usize = 0;
    proof {
        assert(chars@.skip(0) =~= name@);
    }
    while i < n && chars[i as usize] == '/'
        invariant
            i <= n,
            n == chars@.len(),
            chars@ == name@,
            strip_leading(name@, '/') == strip_leading(chars@.skip(i as int), '/'),
        decreases n - i,
    {
        proof {
            assert(chars@.skip(i as int).drop_first() =~= chars@.skip(i + 1));
        }
        i = i + 1;
    }
    proof {
        assert(strip_leading(chars@.skip(i as int), '/') == chars@.skip(i as int));
    }
    let ghost stripped1 = strip_leading(name@, '/');
    let mut j: usize = i;
    while j < n && chars[j as usize] == '\\'
        invariant
            i <= j <= n,
            n == chars@.len(),
            chars@ == name@,
            stripped1 == chars@.skip(i as int),
            strip_leading(stripped1, '\\') == strip_leading(chars@.skip(j as int), '\\'),
        decreases n - j,
    {
        proof {
            assert(chars@.skip(j as int).drop_first() =~= chars@.skip(j + 1));
        }
        j = j + 1;
    }
    proof {
        assert(strip_leading(chars@.skip(j as int), '\\') == chars@.skip(j as int));
    }
    let ghost core = chars@.skip(j as int);
    let mut mapped: Vec<char> = Vec::new();
    let mut k: usize = j;
    proof {
        assert(mapped@ =~= replace_separators(core).subrange(0, 0));
    }
    while k < n
        invariant
            j <= k <= n,
            n == chars@.len(),
            chars@ == name@,
            core == chars@.skip(j as int),
            mapped@ == replace_separators(core).subrange(0, k - j),
        decreases n - k,
    {
        let c: char = chars[k];
        proof {
            assert(core[k - j] == chars@[k as int]);
        }
        if c == '/' || c == '\\' {
            mapped.push('_');
        } else {
            mapped.push(c);
        }
        proof {
            assert(mapped@ =~= replace_separators(core).subrange(0, k + 1 - j));
        }
        k = k + 1;
    }
    proof {
        assert(replace_separators(core).subrange(0, n - j) =~= replace_separators(core));
    }
    let tail: String = string_from_chars(&mapped);
    let mut out: String = String::from_str("logs/");
    out.append(tail.as_str());
    out
}

// ---------------------------------------------------------------------------
// Decimal rendering of clock fields
// ---------------------------------------------------------------------------
/// The character of one decimal digit.
pub open spec fn dec_digit(v: nat) -> char
    recommends
        v < 10,
{
    ((48 + v) as u8) as char
}

/// The decimal digit characters of a number, most significant first.
pub open spec fn dec_digits(n: nat) -> Seq<char>
    decreases n,
{
    if n < 10 {
        seq![dec_digit(n)]
    } else {
        dec_digits(n / 10).push(dec_digit(n % 10))
    }
}

/// A run of zero characters.
pub open spec fn zero_chars(k: nat) -> Seq<char> {
    Seq::new(k, |i: int| '0')
}

/// The decimal digits of a number, left-padded with zeros to a width.
pub open spec fn padded_digits(n: nat, w: nat) -> Seq<char> {
    if dec_digits(n).len() >= w {
        dec_digits(n)
    } else {
        zero_chars((w - dec_digits(n).len()) as nat) + dec_digits(n)
    }
}

/// The decimal digit characters of a number, most significant first.
fn u32_decimal(n: u32) -> (r: Vec<char>)
    ensures
        r@ == dec_digits(n as nat),
    decreases n,
{
    if n < 10 {
        let c: char = ((48 + n) as u8) as char;
        let mut v: Vec<char> = Vec::new();
        v.push(c);
        proof {
            assert(v@ =~= dec_digits(n as nat));
        }
        v
    } else {
        let mut v: Vec<char> = u32_decimal(n / 10);
        let c: char = ((48 + n % 10) as u8) as char;
        v.push(c);
        v
    }
}

/// The decimal digits of a number, left-padded with zeros to a width.
fn u32_padded(n: u32, w: usize) -> (r: Vec<char>)
    ensures
        r@ == padded_digits(n as nat, w as nat),
{
    let mut v: Vec<char> = u32_decimal(n);
    let ghost digits = dec_digits(n as nat);
    proof {
        assert(zero_chars(0) + digits =~= digits);
    }
    while v.len() < w
        invariant
            digits == dec_digits(n as nat),
            digits.len() <= v@.len(),
            digits.len() >= w ==> v@.len() == digits.len(),
            digits.len() < w ==> v@.len() <= w,
            v@ == zero_chars((v@.len() - digits.len()) as nat) + digits,
        decreases w - v.len(),
    {
        v.insert(0, '0');
        proof {
            assert(v@ =~= zero_chars((v@.len() - digits.len()) as nat) + digits);
        }
    }
    proof {
        assert(zero_chars(0) + digits =~= digits);
        assert(v@ =~= padded_digits(n as nat, w as nat));
    }
    v
}

// ---------------------------------------------------------------------------
// Timestamps
// ---------------------------------------------------------------------------
/// The digits of a year, zero-padded to four places, with a leading minus
/// sign for years before the common era.
pub open spec fn year_chars(y: int) -> Seq<char> {
    if y < 0 {
        seq!['-'] + padded_digits((-y) as nat, 4)
    } else {
        padded_digits(y as nat, 4)
    }
}

/// The timestamp written in every traffic-log entry:
/// `YYYYMMDD HH:MM:SS.mmm`.
pub open spec fn log_timestamp_spec(
    y: int,
    mo: nat,
    d: nat,
    h: nat,
    mi: nat,
    s: nat,
    ms: nat,
) -> Seq<char> {
    year_chars(y) + padded_digits(mo, 2) + padded_digits(d, 2) + " "@ + padded_digits(h, 2) + ":"@
        + padded_digits(mi, 2) + ":"@ + padded_digits(s, 2) + "."@ + padded_digits(ms, 3)
}

/// The timestamp used in log file names: `YYYYMMDD_HHMMSS`.
pub open spec fn file_timestamp_spec(y: int, mo: nat, d: nat, h: nat, mi: nat, s: nat) -> Seq<
    char,
> {
    year_chars(y) + padded_digits(mo, 2) + padded_digits(d, 2) + "_"@ + padded_digits(h, 2)
        + padded_digits(mi, 2) + padded_digits(s, 2)
}

/// The local calendar date and wall-clock time, as plain integers.
///
/// Relies on chrono's `Local::now` with the `Datelike` and `Timelike`
/// accessors; the bounds are the ones their documentation states (the
/// millisecond field reaches 1999 only during a leap second).
#[verifier::external_body]
fn local_now_fields() -> (r: (i32, u32, u32, u32, u32, u32, u32))
    ensures
        1 <= r.1 <= 12,
        1 <= r.2 <= 31,
        r.3 <= 23,
        r.4 <= 59,
        r.5 <= 59,
        r.6 <= 1999,
{
    let now = chrono::Local::now();
    (
        now.year(),
        now.month(),
        now.day(),
        now.hour(),
        now.minute(),
        now.second(),
        now.timestamp_subsec_millis(),
    )
}

/// Renders the year including sign handling.
fn year_digits(y: i32) -> (r: Vec<char>)
    ensures
        r@ == year_chars(y as int),
{
    if y < 0 {
        let mag: u32 = if y == i32::MIN {
            2147483648u32
        } else {
            (-y) as u32
        };
        let mut v: Vec<char> = Vec::new();
        v.push('-');
        let mut digits = u32_padded(mag, 4);
        v.append(&mut digits);
        proof {
            assert(v@ =~= year_chars(y as int));
        }
        v
    } else {
        u32_padded(y as u32, 4)
    }
}

/// Renders the traffic-log timestamp `YYYYMMDD HH:MM:SS.mmm`.
pub fn format_log_timestamp(y: i32, mo: u32, d: u32, h: u32, mi: u32, s: u32, ms: u32) -> (r:
    String)
    ensures
        r@ == log_timestamp_spec(y as int, mo as nat, d as nat, h as nat, mi as nat, s as nat,
        ms as nat),
{
    let mut v: Vec<char> = year_digits(y);
    let mut part: Vec<char> = u32_padded(mo, 2);
    v.append(&mut part);
    let mut part2: Vec<char> = u32_padded(d, 2);
    v.append(&mut part2);
    v.push(' ');
    let mut part3: Vec<char> = u32_padded(h, 2);
    v.append(&mut part3);
    v.push(':');
    let mut part4: Vec<char> = u32_padded(mi, 2);
    v.append(&mut part4);
    v.push(':');
    let mut part5: Vec<char> = u32_padded(s, 2);
    v.append(&mut part5);
    v.push('.');
    let mut part6: Vec<char> = u32_padded(ms, 3);
    v.append(&mut part6);
    proof {
        reveal_strlit(" ");
        reveal_strlit(":");
        reveal_strlit(".");
        assert(v@ =~= log_timestamp_spec(y as int, mo as nat, d as nat, h as nat, mi as nat,
        s as nat, ms as nat));
    }
    string_from_chars(&v)
}

/// Renders the file-name timestamp `YYYYMMDD_HHMMSS`.
pub fn format_file_timestamp(y: i32, mo: u32, d: u32, h: u32, mi: u32, s: u32) -> (r: String)
    ensures
        r@ == file_timestamp_spec(y as int, mo as nat, d as nat, h as nat, mi as nat, s as nat),
{
    let mut v: Vec<char> = year_digits(y);
    let mut part: Vec<char> = u32_padded(mo, 2);
    v.append(&mut part);
    let mut part2: Vec<char> = u32_padded(d, 2);
    v.append(&mut part2);
    v.push('_');
    let mut part3: Vec<char> = u32_padded(h, 2);
    v.append(&mut part3);
    let mut part4: Vec<char> = u32_padded(mi, 2);
    v.append(&mut part4);
    let mut part5: Vec<char> = u32_padded(s, 2);
    v.append(&mut part5);
    proof {
        reveal_strlit("_");
        assert(v@ =~= file_timestamp_spec(y as int, mo as nat, d as nat, h as nat, mi as nat,
        s as nat));
    }
    string_from_chars(&v)
}

/// True when a character sequence is a traffic-log timestamp for some
/// in-range clock reading.
pub open spec fn is_log_timestamp(ts: Seq<char>) -> bool {
    exists|y: int, mo: nat, d: nat, h: nat, mi: nat, s: nat, ms: nat|
        1 <= mo <= 12 && 1 <= d <= 31 && h <= 23 && mi <= 59 && s <= 59 && ms <= 1999 && ts
            == log_timestamp_spec(y, mo, d, h, mi, s, ms)
}

/// True when a character sequence is a file-name timestamp for some in-range
/// clock reading.
pub open spec fn is_file_timestamp(ts: Seq<char>) -> bool {
    exists|y: int, mo: nat, d: nat, h: nat, mi: nat, s: nat|
        1 <= mo <= 12 && 1 <= d <= 31 && h <= 23 && mi <= 59 && s <= 59 && ts
            == file_timestamp_spec(y, mo, d, h, mi, s)
}

/// The traffic-log timestamp for the current local time.
pub fn timestamp_now() -> (r: String)
    ensures
        is_log_timestamp(r@),
{
    let (y, mo, d, h, mi, s, ms) = local_now_fields();
    format_log_timestamp(y, mo, d, h, mi, s, ms)
}

/// The file-name timestamp for the current local time.
pub fn file_timestamp_now() -> (r: String)
    ensures
        is_file_timestamp(r@),
{
    let (y, mo, d, h, mi, s, _ms) = local_now_fields();
    format_file_timestamp(y, mo, d, h, mi, s)
}

// ---------------------------------------------------------------------------
// Log entries and log file names
// ---------------------------------------------------------------------------
/// The bytes of one traffic-log entry: a newline, the bracketed header with
/// timestamp and direction tag, then the payload.
pub open spec fn log_entry_spec(ts: Seq<char>, source: DataSource, data: Seq<u8>) -> Seq<u8> {
    seq![10u8] + encode_utf8("["@ + ts + " "@ + source.tag_spec() + "]"@) + data
}

/// Renders one traffic-log entry for a given timestamp.
pub fn log_entry(ts: &str, source: DataSource, data: &[u8]) -> (r: Vec<u8>)
    ensures
        r@ == log_entry_spec(ts@, source, data@),
{
    let mut head: String = String::from_str("[");
    head.append(ts);
    head.append(" ");
    head.append(source.as_str());
    head.append("]");
    let head_bytes: Vec<u8> = head.as_str().as_bytes_vec();
    let mut out: Vec<u8> = Vec::new();
    out.push(10u8);
    let mut hb = head_bytes;
    out.append(&mut hb);
    let mut tail: Vec<u8> = Vec::new();
    tail.extend_from_slice(data);
    out.append(&mut tail);
    proof {
        assert(out@ =~= log_entry_spec(ts@, source, data@));
    }
    out
}

/// Renders one traffic-log entry stamped with the current local time.
pub fn timestamped_log_entry(source: DataSource, data: &[u8]) -> (r: Vec<u8>)
    ensures
        exists|ts: Seq<char>| is_log_timestamp(ts) && r@ == log_entry_spec(ts, source, data@),
{
    let ts: String = timestamp_now();
    log_entry(ts.as_str(), source, data)
}

/// The log file name for a port and a file-name timestamp:
/// `<port>_<timestamp>.txt`.
pub open spec fn log_file_name_spec(port_name: Seq<char>, ts: Seq<char>) -> Seq<char> {
    port_name + "_"@ + ts + ".txt"@
}

/// Builds the log file name for a port, stamped with the current local time.
pub fn log_file_name(port_name: &str) -> (r: String)
    ensures
        exists|ts: Seq<char>| is_file_timestamp(ts) && r@ == log_file_name_spec(port_name@, ts),
{
    let ts: String = file_timestamp_now();
    let mut out: String = String::from_str("");
    out.append(port_name);
    out.append("_");
    out.append(ts.as_str());
    out.append(".txt");
    proof {
        reveal_strlit("");
    }
    out
}

} // verus!
