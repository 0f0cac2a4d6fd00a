use crate::raw::RawString;
use vstd::prelude::*;
use vstd::string::StringExecFns;

verus! {

/// Why a single environment variable could not be resolved into a value.
///
/// Exactly one variant is constructed per failed lookup, and `name` always
/// holds the exact key the lookup used.
#[derive(Debug)]
pub enum Error {
    /// The variable was not set in the process environment.
    EnvVarMissing { name: RawString },
    /// The variable was present, but converting its raw value into the
    /// requested type failed. `info` holds the conversion failure's message,
    /// captured in full at the point of failure.
    ParseError { name: RawString, info: String },
}

/// The character standing for an ASCII byte.
pub open spec fn ascii_char(b: u8) -> char {
    (b as u32) as char
}

/// The lower-case hexadecimal digit for `n`, which must lie below 16.
pub open spec fn hex_digit(n: u8) -> char {
    if n < 10 {
        ascii_char((0x30 + n) as u8)
    } else {
        ascii_char((0x57 + n) as u8)
    }
}

/// How one byte of a raw environment string is rendered in diagnostics:
/// printable ASCII stands for itself, every other byte appears as a
/// `\xNN` hexadecimal escape.
pub open spec fn rendered_byte(b: u8) -> Seq<char> {
    if 0x20 <= b && b <= 0x7e {
        seq![ascii_char(b)]
    } else {
        seq!['\\', 'x', hex_digit(b / 16), hex_digit(b % 16)]
    }
}

/// The rendering of a whole raw environment string, byte by byte.
pub open spec fn rendered_bytes(s: Seq<u8>) -> Seq<char>
    decreases s.len(),
{
    if s.len() == 0 {
        Seq::empty()
    } else {
        rendered_bytes(s.drop_last()) + rendered_byte(s.last())
    }
}

/// Relies on alloc's `String::push`: it appends exactly the given character.
#[verifier::external_body]
fn push_char(s: &mut String, c: char)
    ensures
        final(s)@ == old(s)@ + seq![c],
{
    s.push(c);
}

fn ascii_char_exec(b: u8) -> (c: char)
    requires
        b < 0x80,
    ensures
        c == ascii_char(b),
{
    b as char
}

fn hex_digit_exec(n: u8) -> (c: char)
    requires
        n < 16,
    ensures
        c == hex_digit(n),
{
    if n < 10 {
        ascii_char_exec(0x30 + n)
    } else {
        ascii_char_exec(0x57 + n)
    }
}

proof fn lemma_rendered_bytes_step(s: Seq<u8>, i: int)
    requires
        0 <= i < s.len(),
    ensures
        rendered_bytes(s.take(i + 1)) == rendered_bytes(s.take(i)) + rendered_byte(s[i]),
{
    let t = s.take(i + 1);
    assert(t.drop_last() =~= s.take(i));
    assert(t.last() == s[i]);
}

/// Renders a raw environment string for inclusion in a diagnostic.
pub fn render_raw(name: &RawString) -> (s: String)
    ensures
        s@ == rendered_bytes(name@),
{
    let n = name.len();
    let mut s = String::new();
    let mut i: usize = 0;
    while i < n
        invariant
            i <= n,
            n == name@.len(),
            s@ == rendered_bytes(name@.take(i as int)),
        decreases n - i,
    {
        let b = name.bytes[i];
        if 0x20 <= b && b <= 0x7e {
            push_char(&mut s, ascii_char_exec(b));
        } else {
            push_char(&mut s, '\\');
            push_char(&mut s, 'x');
            push_char(&mut s, hex_digit_exec(b / 16));
            push_char(&mut s, hex_digit_exec(b % 16));
        }
        proof {
            lemma_rendered_bytes_step(name@, i as int);
            assert(s@ =~= rendered_bytes(name@.take(i + 1)));
        }
        i = i + 1;
    }
    proof {
        assert(name@.take(n as int) =~= name@);
    }
    s
}

impl Error {
    /// The diagnostic text of this error, at the specification level.
    pub open spec fn spec_message(&self) -> Seq<char> {
        match self {
            Error::EnvVarMissing { name } => "Env variable is missing: "@ + rendered_bytes(name@),
            Error::ParseError { name, info } => "Failed to parse env variable "@ + rendered_bytes(
                name@,
            ) + ": "@ + info@,
        }
    }

    /// Renders the error as its human-readable diagnostic: the variable's
    /// name after a fixed prefix, and, for a parse failure, the underlying
    /// conversion message verbatim.
    pub fn message(&self) -> (s: String)
        ensures
            s@ == self.spec_message(),
    {
        match self {
            Error::EnvVarMissing { name } => {
                let mut s = String::from_str("Env variable is missing: ");
                let rendered = render_raw(name);
                s.append(rendered.as_str());
                s
            },
            Error::ParseError { name, info } => {
                let mut s = String::from_str("Failed to parse env variable ");
                let rendered = render_raw(name);
                s.append(rendered.as_str());
                s.append(": ");
                s.append(info.as_str());
                s
            },
        }
    }
}

/// The diagnostic of a parse failure carries the underlying conversion
/// message verbatim: the rendering ends with exactly that message.
pub proof fn lemma_parse_error_message_has_info(e: Error)
    requires
        e is ParseError,
    ensures
        ({
            let m = e.spec_message();
            let info = e->ParseError_info@;
            m.subrange(m.len() - info.len(), m.len() as int) =~= info
        }),
{
}

} // verus!
