//! The structural model of a concatenation tree.
//!
//! A `Twine` value is specified through its *shape*: a ghost tree that records
//! the variant of every node and the mathematical content of every leaf. All
//! public contracts of the library speak about shapes, about the character
//! sequence a shape renders to, and about the capacity estimate of a shape.

use vstd::prelude::*;
use vstd::utf8::{encode_scalar, encode_utf8};

verus! {

/// The shape of a concatenation tree: no value, the empty string, one leaf,
/// or two leaves rendered left to right.
pub enum TwineShape {
    Null,
    Empty,
    Unary(LeafShape),
    Binary(LeafShape, LeafShape),
}

/// The shape of a single leaf slot: a nested tree, a string, a character, an
/// integer rendered in decimal, or an unsigned integer rendered in
/// hexadecimal.
pub enum LeafShape {
    Nested(Box<TwineShape>),
    Str(Seq<char>),
    Char(char),
    DecUsize(usize),
    DecU64(u64),
    DecU32(u32),
    DecU16(u16),
    DecIsize(isize),
    DecI64(i64),
    DecI32(i32),
    DecI16(i16),
    HexU64(u64),
    HexUsize(usize),
}

/// The decimal digit character for `d` (`0 <= d <= 9`).
pub open spec fn dec_digit(d: nat) -> char {
    if d == 0 {
        '0'
    } else if d == 1 {
        '1'
    } else if d == 2 {
        '2'
    } else if d == 3 {
        '3'
    } else if d == 4 {
        '4'
    } else if d == 5 {
        '5'
    } else if d == 6 {
        '6'
    } else if d == 7 {
        '7'
    } else if d == 8 {
        '8'
    } else {
        '9'
    }
}

/// The lower-case hexadecimal digit character for `d` (`0 <= d <= 15`).
pub open spec fn hex_digit(d: nat) -> char {
    if d < 10 {
        dec_digit(d)
    } else if d == 10 {
        'a'
    } else if d == 11 {
        'b'
    } else if d == 12 {
        'c'
    } else if d == 13 {
        'd'
    } else if d == 14 {
        'e'
    } else {
        'f'
    }
}

/// The base-10 rendering of `n`, without sign and without leading zeros
/// (except for `n == 0`, which renders as `"0"`).
pub open spec fn dec_digits(n: nat) -> Seq<char>
    decreases n,
{
    if n < 10 {
        seq![dec_digit(n)]
    } else {
        dec_digits(n / 10) + seq![dec_digit(n % 10)]
    }
}

/// The base-10 rendering of `i`, with a leading `'-'` when `i` is negative.
pub open spec fn signed_dec_digits(i: int) -> Seq<char> {
    if i < 0 {
        seq!['-'] + dec_digits((-i) as nat)
    } else {
        dec_digits(i as nat)
    }
}

/// The lower-case base-16 rendering of `n`, without prefix and without
/// leading zeros (except for `n == 0`, which renders as `"0"`).
pub open spec fn hex_digits(n: nat) -> Seq<char>
    decreases n,
{
    if n < 16 {
        seq![hex_digit(n)]
    } else {
        hex_digits(n / 16) + seq![hex_digit(n % 16)]
    }
}

/// The character sequence a whole tree renders to: nothing for `Null` and
/// `Empty`, the single leaf for `Unary`, and the left leaf followed by the
/// right leaf for `Binary`.
pub open spec fn rendered(s: TwineShape) -> Seq<char>
    decreases s,
{
    match s {
        TwineShape::Null => Seq::empty(),
        TwineShape::Empty => Seq::empty(),
        TwineShape::Unary(l) => leaf_rendered(l),
        TwineShape::Binary(l, r) => leaf_rendered(l) + leaf_rendered(r),
    }
}

/// The character sequence a single leaf renders to.
pub open spec fn leaf_rendered(l: LeafShape) -> Seq<char>
    decreases l,
{
    match l {
        LeafShape::Nested(t) => rendered(*t),
        LeafShape::Str(cs) => cs,
        LeafShape::Char(c) => seq![c],
        LeafShape::DecUsize(x) => dec_digits(x as nat),
        LeafShape::DecU64(x) => dec_digits(x as nat),
        LeafShape::DecU32(x) => dec_digits(x as nat),
        LeafShape::DecU16(x) => dec_digits(x as nat),
        LeafShape::DecIsize(x) => signed_dec_digits(x as int),
        LeafShape::DecI64(x) => signed_dec_digits(x as int),
        LeafShape::DecI32(x) => signed_dec_digits(x as int),
        LeafShape::DecI16(x) => signed_dec_digits(x as int),
        LeafShape::HexU64(x) => hex_digits(x as nat),
        LeafShape::HexUsize(x) => hex_digits(x as nat),
    }
}

/// `n` held below the largest `usize`, the bound at which the executable
/// capacity estimate saturates.
pub open spec fn saturated(n: nat) -> nat {
    if n > usize::MAX as nat {
        usize::MAX as nat
    } else {
        n
    }
}

/// The least power of two that is at least `n`, and at least 1. Rendering
/// into a fresh string rounds its capacity request up to this value.
pub open spec fn next_pow2(n: nat) -> nat
    decreases n,
{
    if n <= 1 {
        1
    } else {
        2 * next_pow2((n / 2 + n % 2) as nat)
    }
}

/// The capacity estimate of a whole tree: the sum of its leaf estimates,
/// with `Null` and `Empty` contributing nothing.
pub open spec fn capacity_of(s: TwineShape) -> nat
    decreases s,
{
    match s {
        TwineShape::Null => 0,
        TwineShape::Empty => 0,
        TwineShape::Unary(l) => leaf_capacity(l),
        TwineShape::Binary(l, r) => leaf_capacity(l) + leaf_capacity(r),
    }
}

/// The capacity estimate of a single leaf: the exact UTF-8 byte length for
/// strings and characters, the deliberately cheap lower bound 1 for every
/// numeric leaf, and the nested tree's own estimate for a nested leaf.
pub open spec fn leaf_capacity(l: LeafShape) -> nat
    decreases l,
{
    match l {
        LeafShape::Nested(t) => capacity_of(*t),
        LeafShape::Str(cs) => encode_utf8(cs).len(),
        LeafShape::Char(c) => encode_scalar(c as u32).len(),
        _ => 1,
    }
}

/// One level of flattening: a `Unary` node whose sole leaf is a nested tree
/// stands for that tree. The collapse is deliberately not recursive.
pub open spec fn flattened(s: TwineShape) -> TwineShape {
    match s {
        TwineShape::Unary(LeafShape::Nested(t)) => *t,
        _ => s,
    }
}

/// The shape produced by concatenating two trees, after flattening each side
/// one level:
/// a `Null` side wins over everything; an `Empty` side yields the *other
/// original* operand unchanged; two `Unary` sides join into one flat
/// `Binary`; anything else nests the two original operands.
pub open spec fn concat_shape(lhs: TwineShape, rhs: TwineShape) -> TwineShape {
    if flattened(lhs) is Null || flattened(rhs) is Null {
        TwineShape::Null
    } else if flattened(lhs) is Empty {
        rhs
    } else if flattened(rhs) is Empty {
        lhs
    } else if flattened(lhs) is Unary && flattened(rhs) is Unary {
        TwineShape::Binary(flattened(lhs)->Unary_0, flattened(rhs)->Unary_0)
    } else {
        TwineShape::Binary(
            LeafShape::Nested(Box::new(lhs)),
            LeafShape::Nested(Box::new(rhs)),
        )
    }
}

/// The shape of a tree built from one string slice: an empty slice
/// normalizes to `Empty`.
pub open spec fn str_shape(s: Seq<char>) -> TwineShape {
    if s.len() == 0 {
        TwineShape::Empty
    } else {
        TwineShape::Unary(LeafShape::Str(s))
    }
}

/// The shape of a tree built from a pair of string slices, with each empty
/// side absorbed eagerly.
pub open spec fn pair_shape(a: Seq<char>, b: Seq<char>) -> TwineShape {
    if a.len() == 0 && b.len() == 0 {
        TwineShape::Empty
    } else if a.len() == 0 {
        TwineShape::Unary(LeafShape::Str(b))
    } else if b.len() == 0 {
        TwineShape::Unary(LeafShape::Str(a))
    } else {
        TwineShape::Binary(LeafShape::Str(a), LeafShape::Str(b))
    }
}

} // verus!
