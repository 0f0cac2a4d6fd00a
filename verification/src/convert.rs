use crate::raw::RawString;
use vstd::prelude::*;
use vstd::string::StringExecFns;
use vstd::string::StringSliceAdditionalSpecFns;
use vstd::utf8::decode_utf8;
use vstd::utf8::valid_utf8;

verus! {

/// A type that can be built from a raw environment string by a fallible
/// conversion. Implementations fix, at the specification level, exactly
/// which raw values convert, what they convert to, and the message reported
/// when they do not.
pub trait FromRaw: Sized {
    /// Whether conversion succeeds on this raw value.
    spec fn can_parse(raw: Seq<u8>) -> bool;

    /// Relates a raw value that converts to the value it yields.
    spec fn parses_to(raw: Seq<u8>, value: Self) -> bool;

    /// The conversion failure's message for a raw value that does not convert.
    spec fn failure_message(raw: Seq<u8>) -> Seq<char>;

    /// Converts a raw environment string into `Self`.
    fn from_raw(raw: &RawString) -> (r: Result<Self, String>)
        ensures
            r is Ok <==> Self::can_parse(raw@),
            r matches Ok(v) ==> Self::parses_to(raw@, v),
            r matches Err(m) ==> m@ == Self::failure_message(raw@),
    ;
}

/// Whether `b` is the ASCII code of a decimal digit.
pub open spec fn is_dec_digit(b: u8) -> bool {
    0x30 <= b && b <= 0x39
}

/// Whether every byte of `s` is a decimal digit.
pub open spec fn all_dec_digits(s: Seq<u8>) -> bool {
    forall|i: int| 0 <= i < s.len() ==> is_dec_digit(#[trigger] s[i])
}

/// The numeric value of one digit byte.
pub open spec fn digit_value(b: u8) -> nat {
    if is_dec_digit(b) {
        (b - 0x30) as nat
    } else {
        0
    }
}

/// The number written in decimal by the digit bytes of `s`.
pub open spec fn dec_value(s: Seq<u8>) -> nat
    decreases s.len(),
{
    if s.len() == 0 {
        0
    } else {
        dec_value(s.drop_last()) * 10 + digit_value(s.last())
    }
}

/// The message reported when a raw value does not read as an unsigned
/// decimal number within the target type's range.
pub open spec fn int_failure_message(raw: Seq<u8>) -> Seq<char> {
    if raw.len() == 0 {
        "cannot parse integer from empty string"@
    } else if !all_dec_digits(raw) {
        "invalid digit found in string"@
    } else {
        "number too large to fit in target type"@
    }
}

/// What reading an unsigned decimal number no greater than `bound` out of
/// `raw` returns.
pub open spec fn dec_parse_result(raw: Seq<u8>, bound: nat, r: Result<u64, String>) -> bool {
    if raw.len() > 0 && all_dec_digits(raw) && dec_value(raw) <= bound {
        r matches Ok(v) && v == dec_value(raw)
    } else {
        r matches Err(m) && m@ == int_failure_message(raw)
    }
}

proof fn lemma_dec_value_extend(s: Seq<u8>, i: int)
    requires
        0 <= i < s.len(),
    ensures
        dec_value(s.take(i + 1)) == dec_value(s.take(i)) * 10 + digit_value(s[i]),
{
    let t = s.take(i + 1);
    assert(t.drop_last() =~= s.take(i));
    assert(t.last() == s[i]);
}

proof fn lemma_dec_value_monotone(s: Seq<u8>, i: int, j: int)
    requires
        0 <= i <= j <= s.len(),
    ensures
        dec_value(s.take(i)) <= dec_value(s.take(j)),
    decreases j - i,
{
    if i < j {
        lemma_dec_value_monotone(s, i, j - 1);
        lemma_dec_value_extend(s, j - 1);
    }
}

/// Reads an unsigned decimal number out of `raw`, rejecting anything that is
/// empty, holds a non-digit byte, or exceeds `bound`.
fn parse_decimal(raw: &RawString, bound: u64) -> (r: Result<u64, String>)
    ensures
        dec_parse_result(raw@, bound as nat, r),
{
    let n = raw.len();
    if n == 0 {
        return Result::Err(String::from_str("cannot parse integer from empty string"));
    }
    let mut i: usize = 0;
    while i < n
        invariant
            i <= n,
            n == raw@.len(),
            forall|j: int| 0 <= j < i ==> is_dec_digit(#[trigger] raw@[j]),
        decreases n - i,
    {
        let b = raw.bytes[i];
        if b < 0x30 || b > 0x39 {
            proof {
                assert(!is_dec_digit(raw@[i as int]));
            }
            return Result::Err(String::from_str("invalid digit found in string"));
        }
        i = i + 1;
    }
    assert(all_dec_digits(raw@));
    let mut acc: u64 = 0;
    i = 0;
    while i < n
        invariant
            i <= n,
            0 < n == raw@.len(),
            all_dec_digits(raw@),
            acc as nat == dec_value(raw@.take(i as int)),
            acc <= bound,
        decreases n - i,
    {
        let b = raw.bytes[i];
        let d = b - 0x30;
        let wide: u128 = acc as u128 * 10 + d as u128;
        proof {
            lemma_dec_value_extend(raw@, i as int);
        }
        if wide > bound as u128 {
            proof {
                lemma_dec_value_monotone(raw@, i + 1, n as int);
                assert(raw@.take(n as int) =~= raw@);
            }
            return Result::Err(String::from_str("number too large to fit in target type"));
        }
        acc = wide as u64;
        i = i + 1;
    }
    proof {
        assert(raw@.take(n as int) =~= raw@);
    }
    Result::Ok(acc)
}

impl FromRaw for u64 {
    open spec fn can_parse(raw: Seq<u8>) -> bool {
        raw.len() > 0 && all_dec_digits(raw) && dec_value(raw) <= u64::MAX
    }

    open spec fn parses_to(raw: Seq<u8>, value: u64) -> bool {
        value == dec_value(raw)
    }

    open spec fn failure_message(raw: Seq<u8>) -> Seq<char> {
        int_failure_message(raw)
    }

    fn from_raw(raw: &RawString) -> (r: Result<u64, String>) {
        parse_decimal(raw, u64::MAX)
    }
}

impl FromRaw for u32 {
    open spec fn can_parse(raw: Seq<u8>) -> bool {
        raw.len() > 0 && all_dec_digits(raw) && dec_value(raw) <= u32::MAX
    }

    open spec fn parses_to(raw: Seq<u8>, value: u32) -> bool {
        value == dec_value(raw)
    }

    open spec fn failure_message(raw: Seq<u8>) -> Seq<char> {
        int_failure_message(raw)
    }

    fn from_raw(raw: &RawString) -> (r: Result<u32, String>) {
        match parse_decimal(raw, 0xffff_ffffu64) {
            Result::Ok(v) => Result::Ok(v as u32),
            Result::Err(m) => Result::Err(m),
        }
    }
}

impl FromRaw for u16 {
    open spec fn can_parse(raw: Seq<u8>) -> bool {
        raw.len() > 0 && all_dec_digits(raw) && dec_value(raw) <= u16::MAX
    }

    open spec fn parses_to(raw: Seq<u8>, value: u16) -> bool {
        value == dec_value(raw)
    }

    open spec fn failure_message(raw: Seq<u8>) -> Seq<char> {
        int_failure_message(raw)
    }

    fn from_raw(raw: &RawString) -> (r: Result<u16, String>) {
        match parse_decimal(raw, 0xffffu64) {
            Result::Ok(v) => Result::Ok(v as u16),
            Result::Err(m) => Result::Err(m),
        }
    }
}

/// Compares raw bytes against the UTF-8 bytes of a text literal.
fn bytes_eq_str(v: &Vec<u8>, s: &str) -> (r: bool)
    ensures
        r == (v@ == s.spec_bytes()),
{
    let sb = s.as_bytes();
    if v.len() != sb.len() {
        return false;
    }
    let n = v.len();
    let mut i: usize = 0;
    while i < n
        invariant
            i <= n,
            n == v@.len() == sb@.len(),
            sb@ == s.spec_bytes(),
            forall|j: int| 0 <= j < i ==> v@[j] == sb@[j],
        decreases n - i,
    {
        if v[i] != sb[i] {
            return false;
        }
        i = i + 1;
    }
    proof {
        assert(v@ =~= sb@);
    }
    true
}

impl FromRaw for bool {
    open spec fn can_parse(raw: Seq<u8>) -> bool {
        raw == "true".spec_bytes() || raw == "false".spec_bytes()
    }

    open spec fn parses_to(raw: Seq<u8>, value: bool) -> bool {
        value == (raw == "true".spec_bytes())
    }

    open spec fn failure_message(raw: Seq<u8>) -> Seq<char> {
        "provided string was not `true` or `false`"@
    }

    fn from_raw(raw: &RawString) -> (r: Result<bool, String>) {
        if bytes_eq_str(&raw.bytes, "true") {
            Result::Ok(true)
        } else if bytes_eq_str(&raw.bytes, "false") {
            Result::Ok(false)
        } else {
            Result::Err(String::from_str("provided string was not `true` or `false`"))
        }
    }
}

/// Relies on alloc's `String::from_utf8`: it returns the string decoded from
/// the given bytes exactly when they are valid UTF-8, and an error otherwise.
#[verifier::external_body]
fn utf8_to_string(bytes: &Vec<u8>) -> (r: Option<String>)
    ensures
        r is Some <==> valid_utf8(bytes@),
        r matches Some(s) ==> s@ == decode_utf8(bytes@),
{
    String::from_utf8(bytes.clone()).ok()
}

impl FromRaw for String {
    open spec fn can_parse(raw: Seq<u8>) -> bool {
        valid_utf8(raw)
    }

    open spec fn parses_to(raw: Seq<u8>, value: String) -> bool {
        value@ == decode_utf8(raw)
    }

    open spec fn failure_message(raw: Seq<u8>) -> Seq<char> {
        "invalid utf-8 sequence"@
    }

    fn from_raw(raw: &RawString) -> (r: Result<String, String>) {
        match utf8_to_string(&raw.bytes) {
            Option::Some(s) => Result::Ok(s),
            Option::None => Result::Err(String::from_str("invalid utf-8 sequence")),
        }
    }
}

} // verus!
