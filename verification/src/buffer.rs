//! A fixed-capacity text buffer for modules that must format messages
//! without allocating.
//!
//! Capacity is counted in encoded UTF-8 bytes, and a write that would not
//! fit is refused whole, leaving the contents unchanged.

use vstd::prelude::*;
use vstd::string::StringSliceAdditionalSpecFns;
use vstd::string::StringExecFns;
use vstd::utf8::encode_utf8;

verus! {

/// How many bytes a [`Buffer`] can hold.
pub const BUFFER_CAPACITY: usize = 1024;

/// The UTF-8 byte length of a character sequence.
pub open spec fn byte_len(text: Seq<char>) -> nat {
    encode_utf8(text).len()
}

/// UTF-8 encoding distributes over concatenation, so the byte length of
/// appended text is the sum of the parts' byte lengths.
pub proof fn lemma_encode_utf8_concat(a: Seq<char>, b: Seq<char>)
    ensures
        encode_utf8(a + b) == encode_utf8(a) + encode_utf8(b),
    decreases a.len(),
{
    if a.len() == 0 {
        assert(a + b =~= b);
        assert(encode_utf8(a) + encode_utf8(b) =~= encode_utf8(b));
    } else {
        assert((a + b).drop_first() =~= a.drop_first() + b);
        lemma_encode_utf8_concat(a.drop_first(), b);
        assert(encode_utf8(a + b) =~= encode_utf8(a) + encode_utf8(b));
    }
}

/// A bounded text buffer: at most [`BUFFER_CAPACITY`] bytes of UTF-8.
pub struct Buffer {
    text: String,
    used: usize,
}

impl Buffer {
    /// The characters written so far.
    pub closed spec fn view(&self) -> Seq<char> {
        self.text@
    }

    /// The byte count the buffer tracks matches its contents and fits
    /// the capacity.
    pub closed spec fn wf(&self) -> bool {
        &&& self.used == byte_len(self.text@)
        &&& self.used <= BUFFER_CAPACITY
    }

    /// An empty buffer.
    pub fn new() -> (r: Self)
        ensures
            r.wf(),
            r@ == Seq::<char>::empty(),
    {
        let r = Buffer { text: String::new(), used: 0 };
        proof {
            assert(encode_utf8(r.text@) =~= Seq::<u8>::empty());
        }
        r
    }

    /// How many more bytes fit.
    pub fn unused(&self) -> (r: usize)
        requires
            self.wf(),
        ensures
            r == BUFFER_CAPACITY - byte_len(self@),
    {
        BUFFER_CAPACITY - self.used
    }

    /// The written text.
    pub fn as_str(&self) -> (r: &str)
        ensures
            r@ == self@,
    {
        self.text.as_str()
    }

    /// Appends `s` whole if its bytes fit, and otherwise leaves the
    /// buffer unchanged and reports failure.
    pub fn write_str(&mut self, s: &str) -> (r: Result<(), ()>)
        requires
            old(self).wf(),
        ensures
            final(self).wf(),
            byte_len(old(self)@) + byte_len(s@) <= BUFFER_CAPACITY ==> {
                &&& r is Ok
                &&& final(self)@ == old(self)@ + s@
            },
            byte_len(old(self)@) + byte_len(s@) > BUFFER_CAPACITY ==> {
                &&& r is Err
                &&& final(self)@ == old(self)@
            },
    {
        let n = s.as_bytes().len();
        if n > BUFFER_CAPACITY - self.used {
            Err(())
        } else {
            proof {
                lemma_encode_utf8_concat(self.text@, s@);
            }
            self.text.append(s);
            self.used = self.used + n;
            Ok(())
        }
    }
}

} // verus!
