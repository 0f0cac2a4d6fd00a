use vstd::prelude::*;
use vstd::string::StrSliceExecFns;
use vstd::string::StringSliceAdditionalSpecFns;

verus! {

/// A platform-native environment string: the name or the value of an
/// environment variable, held as the raw bytes the platform reported.
///
/// Environment strings are not guaranteed to be valid UTF-8 (or valid text at
/// all) on every platform, so they are kept as opaque bytes until a
/// conversion interprets them.
#[derive(Debug)]
pub struct RawString {
    pub bytes: Vec<u8>,
}

impl View for RawString {
    type V = Seq<u8>;

    open spec fn view(&self) -> Seq<u8> {
        self.bytes@
    }
}

impl Clone for RawString {
    fn clone(&self) -> (r: Self)
        ensures
            r@ == self@,
    {
        let bytes = self.bytes.clone();
        proof {
            assert(bytes@ =~= self.bytes@);
        }
        RawString { bytes }
    }
}

impl RawString {
    /// Wraps already-raw platform bytes.
    pub fn new(bytes: Vec<u8>) -> (r: RawString)
        ensures
            r@ == bytes@,
    {
        RawString { bytes }
    }

    /// Builds a raw string holding the UTF-8 bytes of `s`.
    pub fn from_text(s: &str) -> (r: RawString)
        ensures
            r@ == s.spec_bytes(),
    {
        RawString { bytes: s.as_bytes_vec() }
    }

    /// The number of bytes held.
    pub fn len(&self) -> (n: usize)
        ensures
            n == self@.len(),
    {
        self.bytes.len()
    }
}

} // verus!
