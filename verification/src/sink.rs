//! Sinks: destinations that accept incrementally written text.
//!
//! Rendering a tree walks it and hands each fragment to a sink. The sink is
//! the only component that may fail; its error is propagated unchanged.

use vstd::prelude::*;
use vstd::utf8::{encode_scalar, encode_utf8};

use crate::digits::{char_utf8_len, sat_add};
use crate::shape::saturated;

verus! {

/// The error a sink may report from a write. Rendering never fails for any
/// other reason and propagates this error unchanged.
#[derive(Debug, Clone, Copy, PartialEq, Eq, Structural)]
pub struct SinkError;

/// A destination accepting incrementally written text.
///
/// `contents` is the character sequence written so far; a successful write
/// appends exactly the handed fragment to it. A sink that fails mid-write
/// leaves no promise about its contents. A sink whose `infallible` holds
/// accepts every write.
pub trait Sink {
    /// The characters written so far.
    spec fn contents(&self) -> Seq<char>;

    /// The sink's own well-formedness, preserved by every write.
    spec fn inv(&self) -> bool;

    /// Whether every write to this sink succeeds.
    spec fn infallible(&self) -> bool;

    /// Appends a string fragment.
    fn write_str(&mut self, piece: &str) -> (r: Result<(), SinkError>)
        requires
            old(self).inv(),
        ensures
            final(self).inv(),
            final(self).infallible() == old(self).infallible(),
            r is Ok ==> final(self).contents() == old(self).contents() + piece@,
            old(self).infallible() ==> r is Ok,
    ;

    /// Appends a single character.
    fn write_char(&mut self, c: char) -> (r: Result<(), SinkError>)
        requires
            old(self).inv(),
        ensures
            final(self).inv(),
            final(self).infallible() == old(self).infallible(),
            r is Ok ==> final(self).contents() == old(self).contents() + seq![c],
            old(self).infallible() ==> r is Ok,
    ;
}

/// Relies on `String::push`, which appends the given character to the end of
/// the string.
#[verifier::external_body]
pub(crate) fn push_char(s: &mut String, c: char)
    ensures
        final(s)@ == old(s)@ + seq![c],
{
    s.push(c);
}

/// Relies on `str::len`, which returns the length of the slice in bytes,
/// that is, the length of its UTF-8 encoding.
#[verifier::external_body]
pub(crate) fn str_byte_len(s: &str) -> (n: usize)
    ensures
        n as nat == encode_utf8(s@).len(),
{
    s.len()
}

/// Relies on `String::with_capacity`, which returns an empty string with at
/// least the given capacity reserved, and panics only when the request
/// exceeds `isize::MAX` bytes.
#[verifier::external_body]
pub(crate) fn string_with_capacity(cap: usize) -> (s: String)
    requires
        cap <= usize::MAX / 2,
    ensures
        s@ == Seq::<char>::empty(),
{
    String::with_capacity(cap)
}

/// A sink that materializes everything written into an owned string and
/// never fails.
pub struct StringSink {
    pub buf: String,
}

impl Sink for StringSink {
    open spec fn contents(&self) -> Seq<char> {
        self.buf@
    }

    open spec fn inv(&self) -> bool {
        true
    }

    open spec fn infallible(&self) -> bool {
        true
    }

    fn write_str(&mut self, piece: &str) -> (r: Result<(), SinkError>) {
        self.buf.append(piece);
        Ok(())
    }

    fn write_char(&mut self, c: char) -> (r: Result<(), SinkError>) {
        push_char(&mut self.buf, c);
        Ok(())
    }
}

/// A sink that only accumulates the total UTF-8 byte count of what is
/// written, saturating at the largest `usize`, and never materializes the
/// bytes. The characters themselves are tracked in ghost state alone.
pub(crate) struct CountingSink {
    pub(crate) count: usize,
    pub(crate) written: Ghost<Seq<char>>,
}

impl CountingSink {
    pub(crate) fn new() -> (r: CountingSink)
        ensures
            r.inv(),
            r.infallible(),
            r.contents() == Seq::<char>::empty(),
            r.count == 0,
    {
        CountingSink { count: 0, written: Ghost(Seq::empty()) }
    }
}

impl Sink for CountingSink {
    closed spec fn contents(&self) -> Seq<char> {
        self.written@
    }

    closed spec fn inv(&self) -> bool {
        self.count as nat == saturated(encode_utf8(self.written@).len())
    }

    closed spec fn infallible(&self) -> bool {
        true
    }

    fn write_str(&mut self, piece: &str) -> (r: Result<(), SinkError>) {
        proof {
            lemma_encode_utf8_concat(self.written@, piece@);
        }
        self.count = sat_add(self.count, str_byte_len(piece));
        self.written = Ghost(self.written@ + piece@);
        Ok(())
    }

    fn write_char(&mut self, c: char) -> (r: Result<(), SinkError>) {
        proof {
            lemma_encode_utf8_concat(self.written@, seq![c]);
            lemma_encode_utf8_single(c);
        }
        self.count = sat_add(self.count, char_utf8_len(c));
        self.written = Ghost(self.written@ + seq![c]);
        Ok(())
    }
}

/// UTF-8 encoding distributes over concatenation of character sequences.
pub(crate) proof fn lemma_encode_utf8_concat(a: Seq<char>, b: Seq<char>)
    ensures
        encode_utf8(a + b) == encode_utf8(a) + encode_utf8(b),
    decreases a.len(),
{
    if a.len() == 0 {
        assert(a + b =~= b);
        assert(encode_utf8(a) + encode_utf8(b) =~= encode_utf8(b));
    } else {
        lemma_encode_utf8_concat(a.drop_first(), b);
        assert((a + b).drop_first() =~= a.drop_first() + b);
        assert((a + b)[0] == a[0]);
        assert(encode_utf8(a + b) =~= encode_utf8(a) + encode_utf8(b));
    }
}

/// A single character UTF-8-encodes to the encoding of its scalar value.
pub(crate) proof fn lemma_encode_utf8_single(c: char)
    ensures
        encode_utf8(seq![c]) == encode_scalar(c as u32),
{
    assert(seq![c].drop_first() =~= Seq::<char>::empty());
    assert(encode_utf8(Seq::<char>::empty()) =~= Seq::<u8>::empty());
    assert(encode_utf8(seq![c]) =~= encode_scalar(c as u32));
}

/// A well-formed counting sink holds a zero count exactly when nothing has
/// been written to it.
pub(crate) proof fn lemma_counting_sink_zero(s: &CountingSink)
    requires
        s.inv(),
    ensures
        (s.count == 0) <==> (s.contents().len() == 0),
{
    lemma_encode_utf8_len(s.contents());
}

/// A character sequence UTF-8-encodes to no bytes exactly when it has no
/// characters.
pub(crate) proof fn lemma_encode_utf8_len(a: Seq<char>)
    ensures
        encode_utf8(a).len() == 0 <==> a.len() == 0,
{
    if a.len() > 0 {
        assert(encode_scalar(a[0] as u32).len() >= 1);
    }
}

} // verus!
