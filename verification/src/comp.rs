//! Componentwise operations on views.  Every point operation is specified
//! through these functions over sequences of scalars, so that one statement
//! covers every dimension.

use vstd::prelude::*;

use crate::scalar::Scalar;

verus! {

/// Whether `a[k] OP s` is defined for every component, for the given
/// per-scalar domain; one such predicate per scalar operation.
pub open spec fn scale_mul_ok<S: Scalar>(a: Seq<S>, s: S) -> bool {
    forall|k: int| 0 <= k < a.len() ==> (#[trigger] a[k]).mul_ok(s)
}

/// Each component multiplied by the scalar.
pub open spec fn scale_mul<S: Scalar>(a: Seq<S>, s: S) -> Seq<S> {
    a.map_values(|c: S| c.mul_spec(s))
}

pub open spec fn scale_div_ok<S: Scalar>(a: Seq<S>, s: S) -> bool {
    forall|k: int| 0 <= k < a.len() ==> (#[trigger] a[k]).div_ok(s)
}

/// Each component divided by the scalar.
pub open spec fn scale_div<S: Scalar>(a: Seq<S>, s: S) -> Seq<S> {
    a.map_values(|c: S| c.div_spec(s))
}

pub open spec fn scale_rem_ok<S: Scalar>(a: Seq<S>, s: S) -> bool {
    forall|k: int| 0 <= k < a.len() ==> (#[trigger] a[k]).rem_ok(s)
}

/// The remainder of each component by the scalar.
pub open spec fn scale_rem<S: Scalar>(a: Seq<S>, s: S) -> Seq<S> {
    a.map_values(|c: S| c.rem_spec(s))
}

/// Whether the componentwise sum of two equally long views is defined.
pub open spec fn add_ok_each<S: Scalar>(a: Seq<S>, b: Seq<S>) -> bool {
    a.len() == b.len() && forall|k: int| 0 <= k < a.len() ==> (#[trigger] a[k]).add_ok(b[k])
}

/// The componentwise sum.
pub open spec fn add_each<S: Scalar>(a: Seq<S>, b: Seq<S>) -> Seq<S> {
    Seq::new(a.len(), |k: int| a[k].add_spec(b[k]))
}

/// Whether the componentwise difference of two equally long views is
/// defined.
pub open spec fn sub_ok_each<S: Scalar>(a: Seq<S>, b: Seq<S>) -> bool {
    a.len() == b.len() && forall|k: int| 0 <= k < a.len() ==> (#[trigger] a[k]).sub_ok(b[k])
}

/// The componentwise difference.
pub open spec fn sub_each<S: Scalar>(a: Seq<S>, b: Seq<S>) -> Seq<S> {
    Seq::new(a.len(), |k: int| a[k].sub_spec(b[k]))
}

/// The sum of the products of corresponding components, added up from the
/// front: for components p0, p1, p2 the result is (p0 + p1) + p2.
pub open spec fn dot_spec<S: Scalar>(a: Seq<S>, b: Seq<S>) -> S
    decreases a.len(),
{
    if a.len() == 0 {
        S::zero_spec()
    } else if a.len() == 1 {
        a[0].mul_spec(b[0])
    } else {
        dot_spec(a.drop_last(), b.drop_last()).add_spec(a.last().mul_spec(b.last()))
    }
}

/// Whether every product and every partial sum in `dot_spec` is defined.
pub open spec fn dot_ok<S: Scalar>(a: Seq<S>, b: Seq<S>) -> bool
    decreases a.len(),
{
    a.len() == b.len() && if a.len() == 0 {
        true
    } else if a.len() == 1 {
        a[0].mul_ok(b[0])
    } else {
        dot_ok(a.drop_last(), b.drop_last()) && a.last().mul_ok(b.last()) && dot_spec(
            a.drop_last(),
            b.drop_last(),
        ).add_ok(a.last().mul_spec(b.last()))
    }
}

/// Whether dividing the first three components of a homogeneous 4-component
/// view by its weight is defined.
pub open spec fn from_homogeneous_ok<S: Scalar>(a: Seq<S>) -> bool {
    a.len() == 4 && forall|k: int| 0 <= k < 3 ==> (#[trigger] a[k]).div_ok(a[3])
}

/// The affine view recovered from a homogeneous 4-component view: the first
/// three components, each divided by the weight.
pub open spec fn from_homogeneous_each<S: Scalar>(a: Seq<S>) -> Seq<S> {
    Seq::new(3, |k: int| a[k].div_spec(a[3]))
}

} // verus!
