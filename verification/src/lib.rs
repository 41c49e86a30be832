//! A lazy, allocation-avoiding representation of string concatenation.
//!
//! A [`Twine`] is a small, fixed-size, non-owning tree describing how a final
//! string would be assembled from fragments: string slices, characters,
//! integers rendered in decimal or hexadecimal, and nested trees. Building
//! and combining trees never allocates; any allocation is deferred until the
//! caller explicitly renders the tree into a string or into a [`Sink`]. If
//! the result is only probed (say with [`Twine::is_empty`]), no string is
//! ever produced.
//!
//! A tree is immutable once constructed and borrows every fragment it
//! describes; concatenation returns a new value and never mutates its
//! operands. The special *null* value absorbs every concatenation, while the
//! *empty* value is the identity for it.

use vstd::prelude::*;

mod digits;
mod laws;
mod shape;
mod sink;

pub use laws::{binary_of_empty_strs, lemma_concat_renders_in_order, lemma_empty_is_identity,
    lemma_flattened_rendered, lemma_null_absorbs, lemma_trivial_emptiness_is_weaker};
pub use shape::{capacity_of, concat_shape, dec_digit, dec_digits, flattened, hex_digit,
    hex_digits, leaf_capacity, leaf_rendered, next_pow2, pair_shape, rendered, saturated,
    signed_dec_digits, str_shape, LeafShape, TwineShape};
pub use sink::{Sink, SinkError, StringSink};

use crate::digits::{char_utf8_len, pow2_roundup, push_dec_i64, push_dec_u64, push_hex_u64,
    sat_add};
use crate::sink::{string_with_capacity, CountingSink};

verus! {

/// A lightweight description of a concatenated string, held as a small
/// binary tree of borrowed fragments. See the crate documentation.
#[derive(Debug, Clone, Copy)]
pub struct Twine<'a>(TwineKind<'a>);

/// Inner representation of a tree: no value, the empty string, one leaf, or
/// two leaves. Private, as variants of public items would also be public.
#[derive(Debug, Clone, Copy)]
enum TwineKind<'a> {
    Null,
    Empty,
    Unary(TwineChild<'a>),
    Binary(TwineChild<'a>, TwineChild<'a>),
}

/// Inner representation of a single leaf slot. Every payload is borrowed
/// from caller-owned storage.
#[derive(Debug, Clone, Copy)]
enum TwineChild<'a> {
    Twine(&'a Twine<'a>),
    Str(&'a str),
    Char(&'a char),
    DecUsize(&'a usize),
    DecU64(&'a u64),
    DecU32(&'a u32),
    DecU16(&'a u16),
    DecIsize(&'a isize),
    DecI64(&'a i64),
    DecI32(&'a i32),
    DecI16(&'a i16),
    HexU64(&'a u64),
    HexUsize(&'a usize),
}

impl<'a> Twine<'a> {
    /// The structural model of this tree.
    closed spec fn shape(self) -> TwineShape
        decreases self,
    {
        match self.0 {
            TwineKind::Null => TwineShape::Null,
            TwineKind::Empty => TwineShape::Empty,
            TwineKind::Unary(c) => TwineShape::Unary(c.leaf_shape()),
            TwineKind::Binary(l, r) => TwineShape::Binary(l.leaf_shape(), r.leaf_shape()),
        }
    }
}

impl<'a> TwineChild<'a> {
    /// The structural model of this leaf slot.
    closed spec fn leaf_shape(self) -> LeafShape
        decreases self,
    {
        match self {
            TwineChild::Twine(t) => LeafShape::Nested(Box::new(t.shape())),
            TwineChild::Str(s) => LeafShape::Str(s@),
            TwineChild::Char(c) => LeafShape::Char(*c),
            TwineChild::DecUsize(x) => LeafShape::DecUsize(*x),
            TwineChild::DecU64(x) => LeafShape::DecU64(*x),
            TwineChild::DecU32(x) => LeafShape::DecU32(*x),
            TwineChild::DecU16(x) => LeafShape::DecU16(*x),
            TwineChild::DecIsize(x) => LeafShape::DecIsize(*x),
            TwineChild::DecI64(x) => LeafShape::DecI64(*x),
            TwineChild::DecI32(x) => LeafShape::DecI32(*x),
            TwineChild::DecI16(x) => LeafShape::DecI16(*x),
            TwineChild::HexU64(x) => LeafShape::HexU64(*x),
            TwineChild::HexUsize(x) => LeafShape::HexUsize(*x),
        }
    }
}

impl<'a> View for Twine<'a> {
    type V = TwineShape;

    closed spec fn view(&self) -> TwineShape {
        self.shape()
    }
}

impl<'a> Twine<'a> {
    /// Creates the *null* tree, which absorbs every concatenation and
    /// renders to nothing.
    pub fn null() -> (r: Twine<'a>)
        ensures
            r@ == TwineShape::Null,
    {
        Twine(TwineKind::Null)
    }

    /// Creates the *empty* tree, the identity of concatenation, effectively
    /// equivalent to `""`.
    pub fn empty() -> (r: Twine<'a>)
        ensures
            r@ == TwineShape::Empty,
    {
        Twine(TwineKind::Empty)
    }

    /// Creates a tree from one string slice. An empty slice normalizes to
    /// the empty tree, never to a string leaf of length zero.
    pub fn from_str(t: &'a str) -> (r: Twine<'a>)
        ensures
            r@ == str_shape(t@),
    {
        if t.is_empty() {
            Twine(TwineKind::Empty)
        } else {
            Twine(TwineKind::Unary(TwineChild::Str(t)))
        }
    }

    /// Creates a tree from an owned string, borrowing its contents.
    pub fn from_string(t: &'a String) -> (r: Twine<'a>)
        ensures
            r@ == str_shape(t@),
    {
        Twine::from_str(t.as_str())
    }

    /// Creates a tree from a single character.
    pub fn from_char(t: &'a char) -> (r: Twine<'a>)
        ensures
            r@ == TwineShape::Unary(LeafShape::Char(*t)),
    {
        Twine(TwineKind::Unary(TwineChild::Char(t)))
    }

    /// Creates a tree rendered as the decimal value of the input.
    pub fn from_dec_usize(t: &'a usize) -> (r: Twine<'a>)
        ensures
            r@ == TwineShape::Unary(LeafShape::DecUsize(*t)),
    {
        Twine(TwineKind::Unary(TwineChild::DecUsize(t)))
    }

    /// Creates a tree rendered as the decimal value of the input.
    pub fn from_dec_u64(t: &'a u64) -> (r: Twine<'a>)
        ensures
            r@ == TwineShape::Unary(LeafShape::DecU64(*t)),
    {
        Twine(TwineKind::Unary(TwineChild::DecU64(t)))
    }

    /// Creates a tree rendered as the decimal value of the input.
    pub fn from_dec_u32(t: &'a u32) -> (r: Twine<'a>)
        ensures
            r@ == TwineShape::Unary(LeafShape::DecU32(*t)),
    {
        Twine(TwineKind::Unary(TwineChild::DecU32(t)))
    }

    /// Creates a tree rendered as the decimal value of the input.
    pub fn from_dec_u16(t: &'a u16) -> (r: Twine<'a>)
        ensures
            r@ == TwineShape::Unary(LeafShape::DecU16(*t)),
    {
        Twine(TwineKind::Unary(TwineChild::DecU16(t)))
    }

    /// Creates a tree rendered as the decimal value of the input, with a
    /// leading `-` when it is negative.
    pub fn from_dec_isize(t: &'a isize) -> (r: Twine<'a>)
        ensures
            r@ == TwineShape::Unary(LeafShape::DecIsize(*t)),
    {
        Twine(TwineKind::Unary(TwineChild::DecIsize(t)))
    }

    /// Creates a tree rendered as the decimal value of the input, with a
    /// leading `-` when it is negative.
    pub fn from_dec_i64(t: &'a i64) -> (r: Twine<'a>)
        ensures
            r@ == TwineShape::Unary(LeafShape::DecI64(*t)),
    {
        Twine(TwineKind::Unary(TwineChild::DecI64(t)))
    }

    /// Creates a tree rendered as the decimal value of the input, with a
    /// leading `-` when it is negative.
    pub fn from_dec_i32(t: &'a i32) -> (r: Twine<'a>)
        ensures
            r@ == TwineShape::Unary(LeafShape::DecI32(*t)),
    {
        Twine(TwineKind::Unary(TwineChild::DecI32(t)))
    }

    /// Creates a tree rendered as the decimal value of the input, with a
    /// leading `-` when it is negative.
    pub fn from_dec_i16(t: &'a i16) -> (r: Twine<'a>)
        ensures
            r@ == TwineShape::Unary(LeafShape::DecI16(*t)),
    {
        Twine(TwineKind::Unary(TwineChild::DecI16(t)))
    }

    /// Creates a tree from a pair of string slices, absorbing each empty
    /// side eagerly so that no node ever holds a trivially empty leaf.
    pub fn from_pair(lhs: &'a str, rhs: &'a str) -> (r: Twine<'a>)
        ensures
            r@ == pair_shape(lhs@, rhs@),
    {
        match (lhs.is_empty(), rhs.is_empty()) {
            (true, true) => Twine(TwineKind::Empty),
            (true, false) => Twine::from_str(rhs),
            (false, true) => Twine::from_str(lhs),
            (false, false) => Twine(TwineKind::Binary(
                TwineChild::Str(lhs),
                TwineChild::Str(rhs),
            )),
        }
    }

    /// Creates a tree that renders as the lower-case hexadecimal value of
    /// the input, without prefix.
    pub fn hex_u64(t: &'a u64) -> (r: Twine<'a>)
        ensures
            r@ == TwineShape::Unary(LeafShape::HexU64(*t)),
    {
        Twine(TwineKind::Unary(TwineChild::HexU64(t)))
    }

    /// Creates a tree that renders as the lower-case hexadecimal value of
    /// the input, without prefix.
    pub fn hex_usize(t: &'a usize) -> (r: Twine<'a>)
        ensures
            r@ == TwineShape::Unary(LeafShape::HexUsize(*t)),
    {
        Twine(TwineKind::Unary(TwineChild::HexUsize(t)))
    }

    /// Flattens one level of nesting: a `Unary` node holding a nested tree
    /// stands for that tree. Deliberately not recursive.
    fn flatten(&'a self) -> (r: &'a Twine<'a>)
        ensures
            r@ == flattened(self@),
    {
        match self.0 {
            TwineKind::Unary(TwineChild::Twine(t)) => t,
            _ => self,
        }
    }

    /// Creates a new tree by concatenating two trees. A null side absorbs
    /// everything; an empty side yields the other operand unchanged; two
    /// single-leaf sides join into one flat two-leaf node; anything else
    /// nests the operands, deferring further flattening to a later
    /// concatenation or to render time.
    pub fn new_concat(lhs: &'a Twine<'a>, rhs: &'a Twine<'a>) -> (r: Twine<'a>)
        ensures
            r@ == concat_shape(lhs@, rhs@),
    {
        let lf = lhs.flatten();
        let rf = rhs.flatten();
        match (lf.0, rf.0) {
            (TwineKind::Null, _) => Twine(TwineKind::Null),
            (_, TwineKind::Null) => Twine(TwineKind::Null),
            (TwineKind::Empty, _) => *rhs,
            (_, TwineKind::Empty) => *lhs,
            (TwineKind::Unary(l), TwineKind::Unary(r_)) => Twine(TwineKind::Binary(l, r_)),
            _ => Twine(TwineKind::Binary(
                TwineChild::Twine(lhs),
                TwineChild::Twine(rhs),
            )),
        }
    }

    /// Creates a new tree by concatenating another tree to this one.
    /// Concatenating a null value always yields a null value.
    pub fn concat(&'a self, other: &'a Twine<'a>) -> (r: Twine<'a>)
        ensures
            r@ == concat_shape(self@, other@),
    {
        Twine::new_concat(self, other)
    }

    /// Checks if the tree has no children (it is null or empty).
    pub fn is_nullary(&self) -> (r: bool)
        ensures
            r == (self@ is Null || self@ is Empty),
    {
        matches!(self.0, TwineKind::Empty | TwineKind::Null)
    }

    /// Checks if the tree has exactly one child.
    pub fn is_unary(&self) -> (r: bool)
        ensures
            r == self@ is Unary,
    {
        matches!(self.0, TwineKind::Unary(_))
    }

    /// Checks if the tree has exactly two children.
    pub fn is_binary(&self) -> (r: bool)
        ensures
            r == self@ is Binary,
    {
        matches!(self.0, TwineKind::Binary(_, _))
    }

    /// Checks if the tree is the null value.
    pub fn is_null(&self) -> (r: bool)
        ensures
            r == self@ is Null,
    {
        matches!(self.0, TwineKind::Null)
    }

    /// Checks if the tree is a single, possibly empty, string slice.
    pub fn is_single_str(&self) -> (r: bool)
        ensures
            r == (self@ is Empty || self@ matches TwineShape::Unary(LeafShape::Str(_))),
    {
        self.as_single_str().is_some()
    }

    /// Returns the tree as a single string slice if it is empty (yielding
    /// `""`) or holds exactly one string leaf; every other tree yields
    /// nothing.
    pub fn as_single_str(&self) -> (r: Option<&'a str>)
        ensures
            self@ is Empty ==> (r matches Some(s) && s@ == Seq::<char>::empty()),
            self@ matches TwineShape::Unary(LeafShape::Str(cs)) ==> (r matches Some(s) && s@
                == cs),
            !(self@ is Empty || self@ matches TwineShape::Unary(LeafShape::Str(_))) ==> r
                is None,
    {
        match self.0 {
            TwineKind::Empty => {
                proof {
                    reveal_strlit("");
                    assert(""@ =~= Seq::<char>::empty());
                }
                Some("")
            }
            TwineKind::Unary(TwineChild::Str(s)) => Some(s),
            _ => None,
        }
    }

    /// Checks if the tree is trivially empty because it has no children.
    /// Even when this is false, the tree might still render to an empty
    /// string; for that exact check use [`Twine::is_empty`].
    pub fn is_trivially_empty(&self) -> (r: bool)
        ensures
            r == (self@ is Null || self@ is Empty),
    {
        self.is_nullary()
    }

    /// Checks if the tree actually renders to the empty string, by running
    /// the renderer through a sink that only counts bytes and never
    /// materializes them.
    pub fn is_empty(&self) -> (r: bool)
        ensures
            r == (rendered(self@).len() == 0),
    {
        let mut w = CountingSink::new();
        let _res = self.write_to(&mut w);
        proof {
            crate::sink::lemma_counting_sink_zero(&w);
        }
        w.count == 0
    }

    /// The estimated capacity needed to store the rendering of this tree: a
    /// deliberately cheap lower bound, exact for string and character
    /// leaves and the constant 1 for every numeric leaf, summed with
    /// saturation at the largest `usize`.
    pub fn estimated_capacity(&self) -> (r: usize)
        ensures
            r as nat == saturated(capacity_of(self@)),
        decreases self,
    {
        match self.0 {
            TwineKind::Null => 0,
            TwineKind::Empty => 0,
            TwineKind::Unary(child) => child.estimated_capacity(),
            TwineKind::Binary(l_child, r_child) => sat_add(
                l_child.estimated_capacity(),
                r_child.estimated_capacity(),
            ),
        }
    }

    /// Renders the tree into the given sink: nothing for null and empty
    /// trees, the single leaf for a one-leaf tree, and the left leaf
    /// followed by the right leaf for a two-leaf tree. A sink failure is
    /// propagated unchanged; a sink that cannot fail receives the full
    /// rendering.
    pub fn write_to<S: Sink>(&self, w: &mut S) -> (r: Result<(), SinkError>)
        requires
            old(w).inv(),
        ensures
            final(w).inv(),
            final(w).infallible() == old(w).infallible(),
            r is Ok ==> final(w).contents() == old(w).contents() + rendered(self@),
            old(w).infallible() ==> r is Ok,
        decreases self,
    {
        match self.0 {
            TwineKind::Null => {
                proof {
                    assert(w.contents() + rendered(self@) =~= w.contents());
                }
                Ok(())
            }
            TwineKind::Empty => {
                proof {
                    assert(w.contents() + rendered(self@) =~= w.contents());
                }
                Ok(())
            }
            TwineKind::Unary(child) => child.write_to(w),
            TwineKind::Binary(l_child, r_child) => {
                match l_child.write_to(w) {
                    Ok(_) => {
                        let res = r_child.write_to(w);
                        proof {
                            if res is Ok {
                                assert(w.contents() =~= old(w).contents() + rendered(self@));
                            }
                        }
                        res
                    }
                    Err(e) => Err(e),
                }
            }
        }
    }

    /// Renders the tree to an owned string, with no pre-sizing hint.
    pub fn to_string(&self) -> (r: String)
        ensures
            r@ == rendered(self@),
    {
        let mut sink = StringSink { buf: String::new() };
        let _res = self.write_to(&mut sink);
        proof {
            assert(sink.buf@ =~= rendered(self@));
        }
        sink.buf
    }

    /// Renders the tree to an owned string whose initial capacity request is
    /// the estimated capacity rounded up to the next power of two, a cheap
    /// over-allocation that reduces reallocation churn while rendering. The
    /// request is held within the allocator's limit; since the estimate is a
    /// lower bound, the buffer may still grow while numeric leaves render.
    pub fn to_string_preallocating(&self) -> (r: String)
        ensures
            r@ == rendered(self@),
    {
        let est = self.estimated_capacity();
        let mut cap = pow2_roundup(est);
        if cap > usize::MAX / 2 {
            cap = usize::MAX / 2;
        }
        let mut sink = StringSink { buf: string_with_capacity(cap) };
        let _res = self.write_to(&mut sink);
        proof {
            assert(sink.buf@ =~= rendered(self@));
        }
        sink.buf
    }
}

impl<'a> TwineChild<'a> {
    /// The estimated capacity of one leaf.
    fn estimated_capacity(&self) -> (r: usize)
        ensures
            r as nat == saturated(leaf_capacity(self.leaf_shape())),
        decreases self,
    {
        match *self {
            TwineChild::Twine(t) => {
                let r = t.estimated_capacity();
                proof {
                    assert(leaf_capacity(self.leaf_shape()) == capacity_of(t@));
                }
                r
            }
            TwineChild::Str(s) => crate::sink::str_byte_len(s),
            TwineChild::Char(c) => char_utf8_len(*c),
            TwineChild::DecUsize(_) => 1,
            TwineChild::DecU64(_) => 1,
            TwineChild::DecU32(_) => 1,
            TwineChild::DecU16(_) => 1,
            TwineChild::DecIsize(_) => 1,
            TwineChild::DecI64(_) => 1,
            TwineChild::DecI32(_) => 1,
            TwineChild::DecI16(_) => 1,
            TwineChild::HexU64(_) => 1,
            TwineChild::HexUsize(_) => 1,
        }
    }

    /// Renders one leaf into the given sink.
    fn write_to<S: Sink>(&self, w: &mut S) -> (r: Result<(), SinkError>)
        requires
            old(w).inv(),
        ensures
            final(w).inv(),
            final(w).infallible() == old(w).infallible(),
            r is Ok ==> final(w).contents() == old(w).contents() + leaf_rendered(
                self.leaf_shape(),
            ),
            old(w).infallible() ==> r is Ok,
        decreases self,
    {
        match *self {
            TwineChild::Twine(t) => t.write_to(w),
            TwineChild::Str(s) => w.write_str(s),
            TwineChild::Char(c) => w.write_char(*c),
            TwineChild::DecUsize(x) => {
                let mut ds = String::new();
                push_dec_u64(*x as u64, &mut ds);
                proof {
                    assert(ds@ =~= leaf_rendered(self.leaf_shape()));
                }
                w.write_str(ds.as_str())
            }
            TwineChild::DecU64(x) => {
                let mut ds = String::new();
                push_dec_u64(*x, &mut ds);
                proof {
                    assert(ds@ =~= leaf_rendered(self.leaf_shape()));
                }
                w.write_str(ds.as_str())
            }
            TwineChild::DecU32(x) => {
                let mut ds = String::new();
                push_dec_u64(*x as u64, &mut ds);
                proof {
                    assert(ds@ =~= leaf_rendered(self.leaf_shape()));
                }
                w.write_str(ds.as_str())
            }
            TwineChild::DecU16(x) => {
                let mut ds = String::new();
                push_dec_u64(*x as u64, &mut ds);
                proof {
                    assert(ds@ =~= leaf_rendered(self.leaf_shape()));
                }
                w.write_str(ds.as_str())
            }
            TwineChild::DecIsize(x) => {
                let mut ds = String::new();
                push_dec_i64(*x as i64, &mut ds);
                proof {
                    assert(ds@ =~= leaf_rendered(self.leaf_shape()));
                }
                w.write_str(ds.as_str())
            }
            TwineChild::DecI64(x) => {
                let mut ds = String::new();
                push_dec_i64(*x, &mut ds);
                proof {
                    assert(ds@ =~= leaf_rendered(self.leaf_shape()));
                }
                w.write_str(ds.as_str())
            }
            TwineChild::DecI32(x) => {
                let mut ds = String::new();
                push_dec_i64(*x as i64, &mut ds);
                proof {
                    assert(ds@ =~= leaf_rendered(self.leaf_shape()));
                }
                w.write_str(ds.as_str())
            }
            TwineChild::DecI16(x) => {
                let mut ds = String::new();
                push_dec_i64(*x as i64, &mut ds);
                proof {
                    assert(ds@ =~= leaf_rendered(self.leaf_shape()));
                }
                w.write_str(ds.as_str())
            }
            TwineChild::HexU64(x) => {
                let mut ds = String::new();
                push_hex_u64(*x, &mut ds);
                proof {
                    assert(ds@ =~= leaf_rendered(self.leaf_shape()));
                }
                w.write_str(ds.as_str())
            }
            TwineChild::HexUsize(x) => {
                let mut ds = String::new();
                push_hex_u64(*x as u64, &mut ds);
                proof {
                    assert(ds@ =~= leaf_rendered(self.leaf_shape()));
                }
                w.write_str(ds.as_str())
            }
        }
    }
}

} // verus!

verus! {

impl<'a> From<&'a str> for Twine<'a> {
    /// Equivalent to [`Twine::from_str`].
    fn from(t: &'a str) -> (r: Twine<'a>)
        ensures
            r@ == str_shape(t@),
    {
        Twine::from_str(t)
    }
}

impl<'a> vstd::std_specs::convert::FromSpecImpl<&'a str> for Twine<'a> {
    open spec fn obeys_from_spec() -> bool {
        false
    }

    closed spec fn from_spec(v: &'a str) -> Twine<'a> {
        vstd::pervasive::arbitrary()
    }
}

impl<'a> From<&'a String> for Twine<'a> {
    /// Equivalent to [`Twine::from_string`].
    fn from(t: &'a String) -> (r: Twine<'a>)
        ensures
            r@ == str_shape(t@),
    {
        Twine::from_string(t)
    }
}

impl<'a> vstd::std_specs::convert::FromSpecImpl<&'a String> for Twine<'a> {
    open spec fn obeys_from_spec() -> bool {
        false
    }

    closed spec fn from_spec(v: &'a String) -> Twine<'a> {
        vstd::pervasive::arbitrary()
    }
}

impl<'a> From<&'a char> for Twine<'a> {
    /// Equivalent to [`Twine::from_char`].
    fn from(t: &'a char) -> (r: Twine<'a>)
        ensures
            r@ == TwineShape::Unary(LeafShape::Char(*t)),
    {
        Twine::from_char(t)
    }
}

impl<'a> vstd::std_specs::convert::FromSpecImpl<&'a char> for Twine<'a> {
    open spec fn obeys_from_spec() -> bool {
        false
    }

    closed spec fn from_spec(v: &'a char) -> Twine<'a> {
        vstd::pervasive::arbitrary()
    }
}

impl<'a> From<&'a usize> for Twine<'a> {
    /// Equivalent to [`Twine::from_dec_usize`].
    fn from(t: &'a usize) -> (r: Twine<'a>)
        ensures
            r@ == TwineShape::Unary(LeafShape::DecUsize(*t)),
    {
        Twine::from_dec_usize(t)
    }
}

impl<'a> vstd::std_specs::convert::FromSpecImpl<&'a usize> for Twine<'a> {
    open spec fn obeys_from_spec() -> bool {
        false
    }

    closed spec fn from_spec(v: &'a usize) -> Twine<'a> {
        vstd::pervasive::arbitrary()
    }
}

impl<'a> From<&'a u64> for Twine<'a> {
    /// Equivalent to [`Twine::from_dec_u64`].
    fn from(t: &'a u64) -> (r: Twine<'a>)
        ensures
            r@ == TwineShape::Unary(LeafShape::DecU64(*t)),
    {
        Twine::from_dec_u64(t)
    }
}

impl<'a> vstd::std_specs::convert::FromSpecImpl<&'a u64> for Twine<'a> {
    open spec fn obeys_from_spec() -> bool {
        false
    }

    closed spec fn from_spec(v: &'a u64) -> Twine<'a> {
        vstd::pervasive::arbitrary()
    }
}

impl<'a> From<&'a u32> for Twine<'a> {
    /// Equivalent to [`Twine::from_dec_u32`].
    fn from(t: &'a u32) -> (r: Twine<'a>)
        ensures
            r@ == TwineShape::Unary(LeafShape::DecU32(*t)),
    {
        Twine::from_dec_u32(t)
    }
}

impl<'a> vstd::std_specs::convert::FromSpecImpl<&'a u32> for Twine<'a> {
    open spec fn obeys_from_spec() -> bool {
        false
    }

    closed spec fn from_spec(v: &'a u32) -> Twine<'a> {
        vstd::pervasive::arbitrary()
    }
}

impl<'a> From<&'a u16> for Twine<'a> {
    /// Equivalent to [`Twine::from_dec_u16`].
    fn from(t: &'a u16) -> (r: Twine<'a>)
        ensures
            r@ == TwineShape::Unary(LeafShape::DecU16(*t)),
    {
        Twine::from_dec_u16(t)
    }
}

impl<'a> vstd::std_specs::convert::FromSpecImpl<&'a u16> for Twine<'a> {
    open spec fn obeys_from_spec() -> bool {
        false
    }

    closed spec fn from_spec(v: &'a u16) -> Twine<'a> {
        vstd::pervasive::arbitrary()
    }
}

impl<'a> From<&'a isize> for Twine<'a> {
    /// Equivalent to [`Twine::from_dec_isize`].
    fn from(t: &'a isize) -> (r: Twine<'a>)
        ensures
            r@ == TwineShape::Unary(LeafShape::DecIsize(*t)),
    {
        Twine::from_dec_isize(t)
    }
}

impl<'a> vstd::std_specs::convert::FromSpecImpl<&'a isize> for Twine<'a> {
    open spec fn obeys_from_spec() -> bool {
        false
    }

    closed spec fn from_spec(v: &'a isize) -> Twine<'a> {
        vstd::pervasive::arbitrary()
    }
}

impl<'a> From<&'a i64> for Twine<'a> {
    /// Equivalent to [`Twine::from_dec_i64`].
    fn from(t: &'a i64) -> (r: Twine<'a>)
        ensures
            r@ == TwineShape::Unary(LeafShape::DecI64(*t)),
    {
        Twine::from_dec_i64(t)
    }
}

impl<'a> vstd::std_specs::convert::FromSpecImpl<&'a i64> for Twine<'a> {
    open spec fn obeys_from_spec() -> bool {
        false
    }

    closed spec fn from_spec(v: &'a i64) -> Twine<'a> {
        vstd::pervasive::arbitrary()
    }
}

impl<'a> From<&'a i32> for Twine<'a> {
    /// Equivalent to [`Twine::from_dec_i32`].
    fn from(t: &'a i32) -> (r: Twine<'a>)
        ensures
            r@ == TwineShape::Unary(LeafShape::DecI32(*t)),
    {
        Twine::from_dec_i32(t)
    }
}

impl<'a> vstd::std_specs::convert::FromSpecImpl<&'a i32> for Twine<'a> {
    open spec fn obeys_from_spec() -> bool {
        false
    }

    closed spec fn from_spec(v: &'a i32) -> Twine<'a> {
        vstd::pervasive::arbitrary()
    }
}

impl<'a> From<&'a i16> for Twine<'a> {
    /// Equivalent to [`Twine::from_dec_i16`].
    fn from(t: &'a i16) -> (r: Twine<'a>)
        ensures
            r@ == TwineShape::Unary(LeafShape::DecI16(*t)),
    {
        Twine::from_dec_i16(t)
    }
}

impl<'a> vstd::std_specs::convert::FromSpecImpl<&'a i16> for Twine<'a> {
    open spec fn obeys_from_spec() -> bool {
        false
    }

    closed spec fn from_spec(v: &'a i16) -> Twine<'a> {
        vstd::pervasive::arbitrary()
    }
}

impl<'a> From<(&'a str, &'a str)> for Twine<'a> {
    /// Equivalent to [`Twine::from_pair`].
    fn from(t: (&'a str, &'a str)) -> (r: Twine<'a>)
        ensures
            r@ == pair_shape(t.0@, t.1@),
    {
        Twine::from_pair(t.0, t.1)
    }
}

impl<'a> vstd::std_specs::convert::FromSpecImpl<(&'a str, &'a str)> for Twine<'a> {
    open spec fn obeys_from_spec() -> bool {
        false
    }

    closed spec fn from_spec(v: (&'a str, &'a str)) -> Twine<'a> {
        vstd::pervasive::arbitrary()
    }
}

impl<'a> core::ops::Add<&'a Twine<'a>> for &'a Twine<'a> {
    type Output = Twine<'a>;

    /// The infix form of [`Twine::new_concat`].
    fn add(self, rhs: &'a Twine<'a>) -> (r: Twine<'a>)
        ensures
            r@ == concat_shape(self@, rhs@),
    {
        Twine::new_concat(self, rhs)
    }
}

impl<'a> vstd::std_specs::ops::AddSpecImpl<&'a Twine<'a>> for &'a Twine<'a> {
    open spec fn obeys_add_spec() -> bool {
        false
    }

    open spec fn add_req(self, rhs: &'a Twine<'a>) -> bool {
        true
    }

    closed spec fn add_spec(self, rhs: &'a Twine<'a>) -> Twine<'a> {
        vstd::pervasive::arbitrary()
    }
}

} // verus!
