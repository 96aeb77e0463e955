//! The algebraic laws the point operations obey, stated over the same view
//! functions the operations' contracts use.

use vstd::prelude::*;

use crate::comp::{
    add_each, add_ok_each, from_homogeneous_each, from_homogeneous_ok, scale_div, scale_mul,
    scale_rem, sub_each, sub_ok_each,
};
use crate::point::{Point2, Point3};
use crate::scalar::Scalar;
use crate::vector::{Vector2, Vector3};

verus! {

/// A 2-dimensional vector is determined by its view: the round trip through
/// `from_vec` and `to_vec` therefore gives back the vector itself.  `p` is
/// any point with `from_vec`'s contract for `v`, and `w` any vector with
/// `to_vec`'s contract for `p`.
pub proof fn lemma_round_trip_2<S: Scalar>(v: Vector2<S>, p: Point2<S>, w: Vector2<S>)
    requires
        p@ == v@,
        w@ == p@,
    ensures
        w == v,
{
    assert(w.x == w@[0] && v.x == v@[0] && w.y == w@[1] && v.y == v@[1]);
}

/// The 3-dimensional counterpart of `lemma_round_trip_2`.
pub proof fn lemma_round_trip_3<S: Scalar>(v: Vector3<S>, p: Point3<S>, w: Vector3<S>)
    requires
        p@ == v@,
        w@ == p@,
    ensures
        w == v,
{
    assert(w.x == w@[0] && v.x == v@[0] && w.y == w@[1] && v.y == v@[1] && w.z == w@[2] && v.z
        == v@[2]);
}

/// Displacement law: wherever `p - q` is defined componentwise, adding the
/// displacement `p - q` back to `q` is defined and recovers `p`; this is
/// `q.add_v(&p.sub_p(&q)) == p` at the view level.
pub proof fn lemma_displacement<S: Scalar>(p: Seq<S>, q: Seq<S>)
    requires
        sub_ok_each(p, q),
    ensures
        add_ok_each(q, sub_each(p, q)),
        add_each(q, sub_each(p, q)) == p,
{
    let d = sub_each(p, q);
    assert forall|k: int| 0 <= k < q.len() implies (#[trigger] q[k]).add_ok(d[k]) by {
        S::sub_then_add(p[k], q[k]);
    }
    assert forall|k: int| 0 <= k < q.len() implies add_each(q, d)[k] == p[k] by {
        S::sub_then_add(p[k], q[k]);
    }
    assert(add_each(q, d) =~= p);
}

/// Scalar-op equivalence for multiplication: a view changed per index as
/// `mul_self_s` describes is exactly the view `mul_s` returns.
pub proof fn lemma_mul_in_place_matches<S: Scalar>(before: Seq<S>, after: Seq<S>, s: S)
    requires
        after.len() == before.len(),
        forall|k: int| 0 <= k < before.len() ==> after[k] == (#[trigger] before[k]).mul_spec(s),
    ensures
        after == scale_mul(before, s),
{
    assert(after =~= scale_mul(before, s));
}

/// Scalar-op equivalence for division: `div_self_s` against `div_s`.
pub proof fn lemma_div_in_place_matches<S: Scalar>(before: Seq<S>, after: Seq<S>, s: S)
    requires
        after.len() == before.len(),
        forall|k: int| 0 <= k < before.len() ==> after[k] == (#[trigger] before[k]).div_spec(s),
    ensures
        after == scale_div(before, s),
{
    assert(after =~= scale_div(before, s));
}

/// Scalar-op equivalence for the remainder: `rem_self_s` against `rem_s`.
pub proof fn lemma_rem_in_place_matches<S: Scalar>(before: Seq<S>, after: Seq<S>, s: S)
    requires
        after.len() == before.len(),
        forall|k: int| 0 <= k < before.len() ==> after[k] == (#[trigger] before[k]).rem_spec(s),
    ensures
        after == scale_rem(before, s),
{
    assert(after =~= scale_rem(before, s));
}

/// Translation equivalence: a view changed per index as `add_self_v`
/// describes is exactly the view `add_v` returns.
pub proof fn lemma_add_in_place_matches<S: Scalar>(before: Seq<S>, after: Seq<S>, d: Seq<S>)
    requires
        after.len() == before.len(),
        d.len() == before.len(),
        forall|k: int| 0 <= k < before.len() ==> after[k] == (#[trigger] before[k]).add_spec(d[k]),
    ensures
        after == add_each(before, d),
{
    assert(after =~= add_each(before, d));
}

/// Homogeneous round trip: embedding a 3-dimensional view with weight one
/// and recovering it divides every component by one, which is the identity;
/// `Point3::from_homogeneous(&p.to_homogeneous()) == p` at the view level.
pub proof fn lemma_homogeneous_round_trip<S: Scalar>(p: Seq<S>)
    requires
        p.len() == 3,
    ensures
        from_homogeneous_ok(p.push(S::one_spec())),
        from_homogeneous_each(p.push(S::one_spec())) == p,
{
    let h = p.push(S::one_spec());
    assert forall|k: int| 0 <= k < 3 implies (#[trigger] h[k]).div_ok(h[3]) by {
        S::div_by_one(h[k]);
    }
    assert forall|k: int| 0 <= k < 3 implies from_homogeneous_each(h)[k] == p[k] by {
        S::div_by_one(h[k]);
    }
    assert(from_homogeneous_each(h) =~= p);
}

} // verus!
