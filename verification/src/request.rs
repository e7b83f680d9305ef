//! The request buffer: what one read takes from a connection, and the text
//! that is shown for it.

use vstd::prelude::*;
use vstd::utf8::{decode_utf8, valid_utf8};

verus! {

/// The number of bytes that one read can take.
pub const REQUEST_CAPACITY: usize = 1024;

/// What a single read takes out of the bytes that are available: all of them
/// up to the capacity, and only the first `REQUEST_CAPACITY` beyond that.
pub open spec fn consumed(available: Seq<u8>) -> Seq<u8> {
    if available.len() <= REQUEST_CAPACITY {
        available
    } else {
        available.take(REQUEST_CAPACITY as int)
    }
}

/// The text that lossy decoding gives for a sequence of bytes: the decoded
/// characters, with U+FFFD in place of each invalid sequence.
pub uninterp spec fn lossy_text(bytes: Seq<u8>) -> Seq<char>;

/// Calls `String::from_utf8_lossy` and takes ownership of what it returns.
///
/// Trusted: the call never fails, its result depends on the bytes alone and
/// is named `lossy_text`, and bytes that are valid UTF-8 decode to exactly
/// the characters they encode.
#[verifier::external_body]
fn decode_lossy(bytes: &[u8]) -> (text: String)
    ensures
        text@ == lossy_text(bytes@),
        valid_utf8(bytes@) ==> text@ == decode_utf8(bytes@),
{
    String::from_utf8_lossy(bytes).into_owned()
}

/// The bytes that one read took from a connection. It never holds more than
/// `REQUEST_CAPACITY` bytes.
pub struct RequestBuffer {
    bytes: Vec<u8>,
}

impl View for RequestBuffer {
    type V = Seq<u8>;

    closed spec fn view(&self) -> Seq<u8> {
        self.bytes@
    }
}

impl RequestBuffer {
    #[verifier::type_invariant]
    spec fn within_capacity(&self) -> bool {
        self.bytes@.len() <= REQUEST_CAPACITY
    }

    /// An empty buffer.
    pub fn new() -> (buffer: RequestBuffer)
        ensures
            buffer@ == Seq::<u8>::empty(),
    {
        RequestBuffer { bytes: Vec::new() }
    }

    /// The number of bytes a read can take.
    pub fn capacity(&self) -> (capacity: usize)
        ensures
            capacity == REQUEST_CAPACITY,
    {
        REQUEST_CAPACITY
    }

    /// Performs the one read: replaces the contents by what `consumed` takes
    /// of `available` and returns how many bytes that is. Bytes beyond the
    /// capacity are left unread.
    pub fn fill(&mut self, available: &[u8]) -> (taken: usize)
        ensures
            final(self)@ == consumed(available@),
            taken == consumed(available@).len(),
            taken <= REQUEST_CAPACITY,
    {
        let taken: usize = if available.len() <= REQUEST_CAPACITY {
            available.len()
        } else {
            REQUEST_CAPACITY
        };
        let mut bytes: Vec<u8> = Vec::new();
        let mut i: usize = 0;
        while i < taken
            invariant
                i <= taken <= available@.len(),
                bytes@ == available@.take(i as int),
            decreases taken - i,
        {
            bytes.push(available[i]);
            i += 1;
            assert(bytes@ =~= available@.take(i as int));
        }
        assert(available@.take(taken as int) =~= consumed(available@));
        self.bytes = bytes;
        taken
    }

    /// The number of bytes held.
    pub fn len(&self) -> (len: usize)
        ensures
            len == self@.len(),
            len <= REQUEST_CAPACITY,
    {
        proof {
            use_type_invariant(self);
        }
        self.bytes.len()
    }

    /// The bytes held.
    pub fn as_slice(&self) -> (bytes: &[u8])
        ensures
            bytes@ == self@,
    {
        self.bytes.as_slice()
    }

    /// The request as text, for display only. Decoding never fails: invalid
    /// sequences are replaced, and valid UTF-8 is decoded as it stands.
    pub fn text(&self) -> (text: String)
        ensures
            text@ == lossy_text(self@),
            valid_utf8(self@) ==> text@ == decode_utf8(self@),
    {
        decode_lossy(self.bytes.as_slice())
    }
}

/// A read takes a prefix of what is available: all of it where that fits,
/// and exactly `REQUEST_CAPACITY` bytes where more is available.
pub proof fn read_takes_bounded_prefix(available: Seq<u8>)
    ensures
        consumed(available).len() <= REQUEST_CAPACITY,
        consumed(available).len() <= available.len(),
        consumed(available) == available.take(consumed(available).len() as int),
        available.len() <= REQUEST_CAPACITY ==> consumed(available) == available,
        available.len() > REQUEST_CAPACITY ==> consumed(available).len() == REQUEST_CAPACITY,
{
    assert(consumed(available) =~= available.take(consumed(available).len() as int));
}

} // verus!
