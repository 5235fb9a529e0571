use vstd::prelude::*;
use vstd::string::StringSliceAdditionalSpecFns;
use vstd::utf8::{encode_utf8, valid_utf8};

verus! {

/// What `String::from_utf8_lossy` makes of a byte string.
pub uninterp spec fn lossy_of(b: Seq<u8>) -> Seq<char>;

/// Relies on std::str::from_utf8: valid UTF-8 is accepted and read as the
/// string it encodes; anything else is refused.
#[verifier::external_body]
fn str_from_utf8(b: &[u8]) -> (r: Option<&str>)
    ensures
        r is Some <==> valid_utf8(b@),
        r is Some ==> r->0.spec_bytes() == b@,
{
    std::str::from_utf8(b).ok()
}

/// Relies on std::string::String::from_utf8_lossy: the result depends on the
/// bytes alone, and valid UTF-8 comes back as the string it encodes.
#[verifier::external_body]
fn string_from_utf8_lossy(b: &[u8]) -> (r: String)
    ensures
        r@ == lossy_of(b@),
        valid_utf8(b@) ==> encode_utf8(r@) == b@,
{
    String::from_utf8_lossy(b).into_owned()
}

/// A native byte string. It is used in place, through references, and never
/// moved once made.
pub struct CxxString {
    bytes: Vec<u8>,
}

impl View for CxxString {
    type V = Seq<u8>;

    closed spec fn view(&self) -> Seq<u8> {
        self.bytes@
    }
}

impl CxxString {
    /// An empty string.
    pub fn new() -> (r: Self)
        ensures
            r@ == Seq::<u8>::empty(),
    {
        CxxString { bytes: Vec::new() }
    }

    /// The number of bytes.
    pub fn string_len(&self) -> (r: usize)
        ensures
            r == self@.len(),
    {
        self.bytes.len()
    }

    /// The bytes, valid until the next change to the string.
    pub fn as_bytes(&self) -> (r: &[u8])
        ensures
            r@ == self@,
    {
        self.bytes.as_slice()
    }

    /// The bytes read as UTF-8, which they must be.
    pub fn to_str(&self) -> (r: &str)
        requires
            valid_utf8(self@),
        ensures
            r.spec_bytes() == self@,
    {
        str_from_utf8(self.bytes.as_slice()).unwrap()
    }

    /// The bytes read as UTF-8, with each invalid sequence replaced.
    pub fn to_string_lossy(&self) -> (r: String)
        ensures
            r@ == lossy_of(self@),
            valid_utf8(self@) ==> encode_utf8(r@) == self@,
    {
        string_from_utf8_lossy(self.bytes.as_slice())
    }

    /// Removes every byte.
    pub fn clear(&mut self)
        ensures
            final(self)@ == Seq::<u8>::empty(),
    {
        self.bytes.clear();
    }

    /// Makes room for `n` more bytes; the contents stay as they are.
    pub fn reserve(&mut self, n: usize)
        ensures
            final(self)@ == old(self)@,
    {
        self.bytes.reserve(n);
    }

    /// Appends the UTF-8 bytes of `s`.
    pub fn push_str(&mut self, s: &str)
        ensures
            final(self)@ == old(self)@ + s.spec_bytes(),
    {
        self.push_bytes(s.as_bytes());
    }

    /// Appends `bytes`.
    pub fn push_bytes(&mut self, bytes: &[u8])
        ensures
            final(self)@ == old(self)@ + bytes@,
    {
        let ghost start = self@;
        let mut i: usize = 0;
        while i < bytes.len()
            invariant
                i <= bytes@.len(),
                self@ == start + bytes@.subrange(0, i as int),
            decreases bytes.len() - i,
        {
            self.bytes.push(bytes[i]);
            proof {
                let done = bytes@.subrange(0, i as int);
                assert(bytes@.subrange(0, i + 1) =~= done.push(bytes@[i as int]));
                assert(start + bytes@.subrange(0, i + 1) =~= (start + done).push(bytes@[i as int]));
            }
            i = i + 1;
        }
        proof {
            assert(bytes@.subrange(0, bytes@.len() as int) =~= bytes@);
        }
    }
}

/// Storage for one native string, held where it was made.
pub struct StackString {
    string: CxxString,
}

impl View for StackString {
    type V = Seq<u8>;

    closed spec fn view(&self) -> Seq<u8> {
        self.string@
    }
}

impl Default for StackString {
    fn default() -> (r: Self)
        ensures
            r@ == Seq::<u8>::empty(),
    {
        StackString { string: CxxString { bytes: Vec::new() } }
    }
}

impl StackString {
    /// Makes the string hold the UTF-8 bytes of `val` and hands it out in place.
    pub fn init(&mut self, val: &str) -> (r: &mut CxxString)
        ensures
            r@ == val.spec_bytes(),
            final(self)@ == final(r)@,
    {
        self.string.clear();
        self.string.push_str(val);
        &mut self.string
    }

    /// The string, in place.
    pub fn pin_str(&mut self) -> (r: &mut CxxString)
        ensures
            r@ == old(self)@,
            final(self)@ == final(r)@,
    {
        &mut self.string
    }
}

} // verus!
