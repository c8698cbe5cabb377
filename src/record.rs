//! What every stored record carries besides its own fields: an identifier
//! and the times of creation and of the last update.

use vstd::prelude::*;
use vstd::utf8::encode_utf8;

verus! {

/// Longest name, in bytes of UTF-8, that a record accepts.
pub const MAX_NAME_LENGTH: usize = 128;

/// Longest location or external identifier, in bytes of UTF-8.
pub const MAX_LOCATION_LENGTH: usize = 128;

/// Length of a text in bytes of UTF-8, as `str::len` gives it.
pub open spec fn byte_len(s: Seq<char>) -> usize {
    encode_utf8(s).len() as usize
}

/// Length of `s` in bytes of UTF-8.
pub fn text_byte_len(s: &String) -> (r: usize)
    ensures
        r == byte_len(s@),
{
    s.as_str().len()
}

/// A point in time, as whole seconds since the epoch and the nanoseconds
/// within that second.
#[derive(Clone, Copy, Debug, PartialEq, Eq, PartialOrd, Ord, Hash, Structural)]
pub struct Timestamp {
    pub secs: i64,
    pub nanos: u32,
}

/// `a` comes strictly before `b`.
pub open spec fn is_before(a: Timestamp, b: Timestamp) -> bool {
    a.secs < b.secs || (a.secs == b.secs && a.nanos < b.nanos)
}

impl Timestamp {
    pub fn new(secs: i64, nanos: u32) -> (r: Timestamp)
        ensures
            r == (Timestamp { secs, nanos }),
    {
        Timestamp { secs, nanos }
    }

    pub fn before(&self, other: &Timestamp) -> (r: bool)
        ensures
            r == is_before(*self, *other),
    {
        self.secs < other.secs || (self.secs == other.secs && self.nanos < other.nanos)
    }
}

} // verus!
