//! A JSON tree in the library's own terms, the call that parses text into
//! it, and lookups by key.

use vstd::prelude::*;
use rustc_serialize::json::Json;
use vstd::string::StringSliceAdditionalSpecFns;

verus! {

#[verifier::external_type_specification]
#[verifier::external_body]
pub struct ExJson(Json);

/// A parsed JSON value. Integral numbers are `I64` when written with a
/// minus sign (`-0` included) and `U64` otherwise; other numbers keep their
/// JSON text. An object keeps its
/// members in the order the parser gave them.
#[derive(Debug)]
pub enum JsonValue {
    Null,
    Bool(bool),
    I64(i64),
    U64(u64),
    F64(String),
    Str(String),
    Array(Vec<JsonValue>),
    Object(Vec<(String, JsonValue)>),
}

/// What the JSON parser makes of `text`: `None` where it is not JSON.
pub uninterp spec fn parsed_json(text: Seq<char>) -> Option<JsonValue>;

/// The conversion half of `parse_json`: rebuilds the parsed tree as a
/// `JsonValue`, one variant for one variant, members in the tree's own
/// order; a float is kept as the text that `Json`'s `Display` writes for it.
#[verifier::external_body]
fn json_value_of(j: Json) -> JsonValue {
    match j {
        Json::I64(v) => JsonValue::I64(v),
        Json::U64(v) => JsonValue::U64(v),
        Json::F64(_) => JsonValue::F64(j.to_string()),
        Json::String(s) => JsonValue::Str(s),
        Json::Boolean(b) => JsonValue::Bool(b),
        Json::Array(a) => JsonValue::Array(a.into_iter().map(json_value_of).collect()),
        Json::Object(o) => JsonValue::Object(o.into_iter().map(|(k, v)| (k, json_value_of(v))).collect()),
        Json::Null => JsonValue::Null,
    }
}

/// Deepest nesting of arrays and objects that the parser is given.
pub const MAX_DEPTH: u64 = 64;

/// Longest object key, in bytes of its raw text, that the parser is given.
/// Keys on one path of at most `MAX_DEPTH` objects then stay within the
/// parser's 16-bit key positions.
pub const MAX_KEY_BYTES: u64 = 1023;

/// Most digits of an exponent that the parser is given; more could
/// overflow its exponent counter.
pub const MAX_EXPONENT_DIGITS: u64 = 9;

/// Where a byte-by-byte scan of a JSON text stands.
#[derive(Clone, Copy)]
pub struct ScanState {
    /// Inside a string literal.
    pub in_str: bool,
    /// Just after a backslash inside a string literal.
    pub esc: bool,
    /// Raw bytes so far of the string literal being read.
    pub str_len: u64,
    /// Raw bytes of the last string literal that was closed.
    pub last_len: u64,
    /// Arrays and objects open.
    pub depth: u64,
    /// Just after an `e` or `E` outside strings, possibly with a sign and digits.
    pub in_exp: bool,
    /// Digits of the exponent so far.
    pub exp_digits: u64,
    /// Just after a `,` outside strings, possibly with whitespace.
    pub after_comma: bool,
}

pub open spec fn scan_start() -> ScanState {
    ScanState {
        in_str: false,
        esc: false,
        str_len: 0,
        last_len: 0,
        depth: 0,
        in_exp: false,
        exp_digits: 0,
        after_comma: false,
    }
}

/// JSON whitespace: space, tab, line feed, carriage return.
pub open spec fn is_json_space(b: u8) -> bool {
    b == 0x20 || b == 0x09 || b == 0x0a || b == 0x0d
}

/// One byte of the scan: `None` where the text goes past a limit, or
/// closes an object right after a comma.
pub open spec fn scan_step(st: ScanState, b: u8) -> Option<ScanState> {
    if st.in_str {
        if st.esc {
            Some(ScanState { esc: false, str_len: (st.str_len + 1) as u64, ..st })
        } else if b == 0x5c {
            Some(ScanState { esc: true, str_len: (st.str_len + 1) as u64, ..st })
        } else if b == 0x22 {
            Some(ScanState { in_str: false, last_len: st.str_len, str_len: 0, ..st })
        } else {
            Some(ScanState { str_len: (st.str_len + 1) as u64, ..st })
        }
    } else if b == 0x22 {
        Some(ScanState { in_str: true, str_len: 0, in_exp: false, exp_digits: 0, after_comma: false, ..st })
    } else if b == 0x3a {
        if st.last_len <= MAX_KEY_BYTES {
            Some(ScanState { in_exp: false, exp_digits: 0, after_comma: false, ..st })
        } else {
            None
        }
    } else if b == 0x7b || b == 0x5b {
        if st.depth < MAX_DEPTH {
            Some(ScanState { depth: (st.depth + 1) as u64, in_exp: false, exp_digits: 0, after_comma: false, ..st })
        } else {
            None
        }
    } else if b == 0x7d || b == 0x5d {
        if b == 0x7d && st.after_comma {
            None
        } else {
            Some(
                ScanState {
                    depth: if st.depth > 0 {
                        (st.depth - 1) as u64
                    } else {
                        0
                    },
                    in_exp: false,
                    exp_digits: 0,
                    after_comma: false,
                    ..st
                },
            )
        }
    } else if b == 0x2c {
        Some(ScanState { in_exp: false, exp_digits: 0, after_comma: true, ..st })
    } else if is_json_space(b) {
        Some(ScanState { in_exp: false, exp_digits: 0, ..st })
    } else if b == 0x65 || b == 0x45 {
        Some(ScanState { in_exp: true, exp_digits: 0, after_comma: false, ..st })
    } else if st.in_exp && st.exp_digits == 0 && (b == 0x2b || b == 0x2d) {
        Some(ScanState { after_comma: false, ..st })
    } else if st.in_exp && 0x30 <= b <= 0x39 {
        if st.exp_digits < MAX_EXPONENT_DIGITS {
            Some(ScanState { exp_digits: (st.exp_digits + 1) as u64, after_comma: false, ..st })
        } else {
            None
        }
    } else {
        Some(ScanState { in_exp: false, exp_digits: 0, after_comma: false, ..st })
    }
}

/// Whether the scan from position `i` in state `st` stays within the limits.
pub open spec fn scan_from(b: Seq<u8>, i: int, st: ScanState) -> bool
    decreases b.len() - i,
{
    if i < 0 || i >= b.len() {
        true
    } else {
        match scan_step(st, b[i]) {
            None => false,
            Some(next) => scan_from(b, i + 1, next),
        }
    }
}

/// Whether the bytes of a text are fit for the parser: at most `MAX_DEPTH`
/// open arrays and objects, object keys of at most `MAX_KEY_BYTES` raw
/// bytes, exponents of at most `MAX_EXPONENT_DIGITS` digits, no `}` after
/// a `,` with only whitespace between, and a length that fits in 32 bits.
/// String literals are told apart by their quotes and escapes; a `:`
/// outside them follows a key.
pub open spec fn json_text_ok(b: Seq<u8>) -> bool {
    b.len() <= u32::MAX && scan_from(b, 0, scan_start())
}

/// Tests whether `b` is fit for the parser.
pub fn json_text_within_limits(b: &[u8]) -> (r: bool)
    ensures
        r == json_text_ok(b@),
{
    if b.len() > 0xffff_ffff {
        return false;
    }
    let mut st = ScanState {
        in_str: false,
        esc: false,
        str_len: 0,
        last_len: 0,
        depth: 0,
        in_exp: false,
        exp_digits: 0,
        after_comma: false,
    };
    let mut i: usize = 0;
    while i < b.len()
        invariant
            b@.len() <= u32::MAX,
            0 <= i <= b.len(),
            st.str_len <= i,
            st.depth <= MAX_DEPTH,
            st.exp_digits <= MAX_EXPONENT_DIGITS,
            scan_from(b@, 0, scan_start()) == scan_from(b@, i as int, st),
        decreases b.len() - i,
    {
        let c = b[i];
        let next: ScanState;
        if st.in_str {
            if st.esc {
                next = ScanState { esc: false, str_len: st.str_len + 1, ..st };
            } else if c == 0x5c {
                next = ScanState { esc: true, str_len: st.str_len + 1, ..st };
            } else if c == 0x22 {
                next = ScanState { in_str: false, last_len: st.str_len, str_len: 0, ..st };
            } else {
                next = ScanState { str_len: st.str_len + 1, ..st };
            }
        } else if c == 0x22 {
            next = ScanState { in_str: true, str_len: 0, in_exp: false, exp_digits: 0, after_comma: false, ..st };
        } else if c == 0x3a {
            if st.last_len <= MAX_KEY_BYTES {
                next = ScanState { in_exp: false, exp_digits: 0, after_comma: false, ..st };
            } else {
                return false;
            }
        } else if c == 0x7b || c == 0x5b {
            if st.depth < MAX_DEPTH {
                next = ScanState { depth: st.depth + 1, in_exp: false, exp_digits: 0, after_comma: false, ..st };
            } else {
                return false;
            }
        } else if c == 0x7d || c == 0x5d {
            if c == 0x7d && st.after_comma {
                return false;
            }
            let depth: u64 = if st.depth > 0 {
                st.depth - 1
            } else {
                0
            };
            next = ScanState { depth: depth, in_exp: false, exp_digits: 0, after_comma: false, ..st };
        } else if c == 0x2c {
            next = ScanState { in_exp: false, exp_digits: 0, after_comma: true, ..st };
        } else if c == 0x20 || c == 0x09 || c == 0x0a || c == 0x0d {
            next = ScanState { in_exp: false, exp_digits: 0, ..st };
        } else if c == 0x65 || c == 0x45 {
            next = ScanState { in_exp: true, exp_digits: 0, after_comma: false, ..st };
        } else if st.in_exp && st.exp_digits == 0 && (c == 0x2b || c == 0x2d) {
            next = ScanState { after_comma: false, ..st };
        } else if st.in_exp && 0x30 <= c && c <= 0x39 {
            if st.exp_digits < MAX_EXPONENT_DIGITS {
                next = ScanState { exp_digits: st.exp_digits + 1, after_comma: false, ..st };
            } else {
                return false;
            }
        } else {
            next = ScanState { in_exp: false, exp_digits: 0, after_comma: false, ..st };
        }
        assert(scan_step(st, c) == Some(next));
        st = next;
        i = i + 1;
    }
    true
}

/// Relies on `rustc_serialize::json::Json::from_str`, which parses a whole
/// text into a tree or fails; the tree depends on the text alone. The
/// parser panics on some malformed or oversized texts, and `json_text_ok`
/// leaves out those that its source shows: a key whose position on the
/// parser's key stack passes 16 bits; an exponent that overflows its digit
/// counter; and an object closed right after a comma, on which the parser
/// pops one stack entry too many and its tree builder then panics. The
/// parser and the conversion recurse once per level of nesting, which
/// `MAX_DEPTH` bounds.
#[verifier::external_body]
pub(crate) fn parse_json(text: &str) -> (r: Option<JsonValue>)
    requires
        json_text_ok(text.spec_bytes()),
    ensures
        r == parsed_json(text@),
{
    match Json::from_str(text) {
        Ok(j) => Some(json_value_of(j)),
        Err(_) => None,
    }
}

/// The value of the first member named `key` from position `i` on.
pub open spec fn lookup_from(entries: Seq<(String, JsonValue)>, key: Seq<char>, i: int) -> Option<JsonValue>
    decreases entries.len() - i,
{
    if i < 0 || i >= entries.len() {
        None
    } else if entries[i].0@ == key {
        Some(entries[i].1)
    } else {
        lookup_from(entries, key, i + 1)
    }
}

/// The member `key` of `j`: `None` when `j` is not an object or has no
/// such member.
pub open spec fn member(j: JsonValue, key: Seq<char>) -> Option<JsonValue> {
    match j {
        JsonValue::Object(entries) => lookup_from(entries@, key, 0),
        _ => None,
    }
}

/// An integral number as a mathematical integer.
pub open spec fn int_of(j: JsonValue) -> Option<int> {
    match j {
        JsonValue::I64(v) => Some(v as int),
        JsonValue::U64(v) => Some(v as int),
        _ => None,
    }
}

/// Finds the member `key` of `j`.
pub fn get_member<'a>(j: &'a JsonValue, key: &str) -> (r: Option<&'a JsonValue>)
    ensures
        match r {
            Some(v) => member(*j, key@) == Some(*v),
            None => member(*j, key@) is None,
        },
{
    match j {
        JsonValue::Object(entries) => {
            assert(member(*j, key@) == lookup_from(entries@, key@, 0));
            let k = String::from_str(key);
            let mut i: usize = 0;
            while i < entries.len()
                invariant
                    0 <= i <= entries.len(),
                    k@ == key@,
                    member(*j, key@) == lookup_from(entries@, key@, 0),
                    lookup_from(entries@, key@, 0) == lookup_from(entries@, key@, i as int),
                decreases entries.len() - i,
            {
                if entries[i].0 == k {
                    assert(lookup_from(entries@, key@, i as int) == Some(entries@[i as int].1));
                    return Some(&entries[i].1);
                }
                i = i + 1;
            }
            None
        },
        _ => None,
    }
}

/// Reads an integral number.
pub fn get_int(j: &JsonValue) -> (r: Option<i128>)
    ensures
        match r {
            Some(n) => int_of(*j) == Some(n as int),
            None => int_of(*j) is None,
        },
{
    match j {
        JsonValue::I64(v) => Some(*v as i128),
        JsonValue::U64(v) => Some(*v as i128),
        _ => None,
    }
}

/// A lower-case hexadecimal digit.
pub open spec fn hex_digit(d: nat) -> char {
    seq!['0', '1', '2', '3', '4', '5', '6', '7', '8', '9', 'a', 'b', 'c', 'd', 'e', 'f'][d as int]
}

/// How one character stands inside a JSON string literal: quote and
/// backslash are escaped, `\b \t \n \f \r` take their short escapes, the
/// other control characters and DEL take `\u00XX`, and the rest stand as
/// they are.
pub open spec fn escaped_char(c: char) -> Seq<char> {
    if c == '"' {
        seq!['\\', '"']
    } else if c == '\\' {
        seq!['\\', '\\']
    } else if c == '\x08' {
        seq!['\\', 'b']
    } else if c == '\t' {
        seq!['\\', 't']
    } else if c == '\n' {
        seq!['\\', 'n']
    } else if c == '\x0c' {
        seq!['\\', 'f']
    } else if c == '\r' {
        seq!['\\', 'r']
    } else if (c as u32) < 0x20 || c == '\x7f' {
        seq!['\\', 'u', '0', '0', hex_digit((c as u32 / 16) as nat), hex_digit((c as u32 % 16) as nat)]
    } else {
        seq![c]
    }
}

/// The characters of `s`, each as it stands inside a JSON string literal.
pub open spec fn escaped(s: Seq<char>) -> Seq<char>
    decreases s.len(),
{
    if s.len() == 0 {
        Seq::empty()
    } else {
        escaped(s.drop_last()) + escaped_char(s.last())
    }
}

/// The JSON string literal for `s`: quotes around its escaped characters.
pub open spec fn json_string_text(s: Seq<char>) -> Seq<char> {
    seq!['"'] + escaped(s) + seq!['"']
}

/// Relies on `rustc_serialize`'s `Display` for `Json::String`, which writes
/// the text as a quoted JSON string literal through `escape_str`, with the
/// escapes that `escaped_char` lists.
#[verifier::external_body]
pub(crate) fn quote_json_string(s: &str) -> (r: String)
    ensures
        r@ == json_string_text(s@),
{
    Json::String(s.to_string()).to_string()
}

} // verus!
