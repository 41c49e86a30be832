//! The algebraic laws of concatenation, stated over shapes and proved once
//! and for all.

use vstd::prelude::*;

use crate::shape::{capacity_of, concat_shape, flattened, rendered, LeafShape, TwineShape};

verus! {

/// One level of flattening changes neither what a tree renders to nor its
/// capacity estimate.
pub proof fn lemma_flattened_rendered(x: TwineShape)
    ensures
        rendered(flattened(x)) == rendered(x),
        capacity_of(flattened(x)) == capacity_of(x),
{
}

/// The null tree absorbs concatenation on either side, and the result
/// renders to nothing.
pub proof fn lemma_null_absorbs(x: TwineShape)
    ensures
        concat_shape(TwineShape::Null, x) == TwineShape::Null,
        concat_shape(x, TwineShape::Null) == TwineShape::Null,
        rendered(concat_shape(TwineShape::Null, x)) == Seq::<char>::empty(),
        rendered(concat_shape(x, TwineShape::Null)) == Seq::<char>::empty(),
{
}

/// Concatenation preserves render order through every branch of the shape
/// analysis: when neither flattened side is null, the result renders to the
/// left side's rendering immediately followed by the right side's; when
/// either flattened side is null, the result renders to nothing.
pub proof fn lemma_concat_renders_in_order(lhs: TwineShape, rhs: TwineShape)
    ensures
        !(flattened(lhs) is Null) && !(flattened(rhs) is Null) ==> rendered(
            concat_shape(lhs, rhs),
        ) == rendered(lhs) + rendered(rhs),
        flattened(lhs) is Null || flattened(rhs) is Null ==> rendered(concat_shape(lhs, rhs))
            == Seq::<char>::empty(),
{
    lemma_flattened_rendered(lhs);
    lemma_flattened_rendered(rhs);
    if flattened(lhs) is Null || flattened(rhs) is Null {
    } else if flattened(lhs) is Empty {
        assert(rendered(lhs) + rendered(rhs) =~= rendered(rhs));
    } else if flattened(rhs) is Empty {
        assert(rendered(lhs) + rendered(rhs) =~= rendered(lhs));
    }
}

/// The empty tree is the identity of concatenation: concatenating it on
/// either side renders identically to the other operand alone, and (null
/// absorption aside) the other operand even comes back unchanged.
pub proof fn lemma_empty_is_identity(x: TwineShape)
    ensures
        rendered(concat_shape(TwineShape::Empty, x)) == rendered(x),
        rendered(concat_shape(x, TwineShape::Empty)) == rendered(x),
        !(flattened(x) is Null) ==> concat_shape(TwineShape::Empty, x) == x,
        !(flattened(x) is Null || flattened(x) is Empty) ==> concat_shape(
            x,
            TwineShape::Empty,
        ) == x,
{
    lemma_flattened_rendered(x);
    lemma_concat_renders_in_order(TwineShape::Empty, x);
    lemma_concat_renders_in_order(x, TwineShape::Empty);
    assert(Seq::<char>::empty() + rendered(x) =~= rendered(x));
    assert(rendered(x) + Seq::<char>::empty() =~= rendered(x));
}

/// A two-leaf tree both of whose leaves are empty strings: it renders to
/// nothing, yet it is not trivially empty.
pub open spec fn binary_of_empty_strs() -> TwineShape {
    TwineShape::Binary(LeafShape::Str(Seq::empty()), LeafShape::Str(Seq::empty()))
}

/// Trivial emptiness (no children) is strictly weaker than rendering to the
/// empty string: every tree without children renders to nothing, but a
/// two-leaf tree of two empty string leaves also renders to nothing while
/// having children.
pub proof fn lemma_trivial_emptiness_is_weaker(x: TwineShape)
    ensures
        (x is Null || x is Empty) ==> rendered(x).len() == 0,
        !(binary_of_empty_strs() is Null || binary_of_empty_strs() is Empty),
        rendered(binary_of_empty_strs()).len() == 0,
{
    assert(rendered(binary_of_empty_strs()) =~= Seq::<char>::empty());
}

} // verus!
