//! Points in affine space: the generic point capability and the concrete
//! 2- and 3-dimensional point types, including the homogeneous-coordinate
//! conversion for 3-dimensional points.

use vstd::prelude::*;
use vstd::string::StringExecFns;

use crate::array::Array;
use crate::comp::{
    add_each, add_ok_each, dot_ok, dot_spec, from_homogeneous_each, from_homogeneous_ok,
    scale_div, scale_div_ok, scale_mul, scale_mul_ok, scale_rem, scale_rem_ok, sub_each,
    sub_ok_each,
};
use crate::scalar::Scalar;
use crate::vector::{Vector2, Vector3, Vector4};

verus! {

/// A point in 2-dimensional space.
#[derive(Clone, Copy, PartialEq, Eq, Debug, Hash)]
pub struct Point2<S> {
    pub x: S,
    pub y: S,
}

/// A point in 3-dimensional space.
#[derive(Clone, Copy, PartialEq, Eq, Debug, Hash)]
pub struct Point3<S> {
    pub x: S,
    pub y: S,
    pub z: S,
}

impl<S> View for Point2<S> {
    type V = Seq<S>;

    open spec fn view(&self) -> Seq<S> {
        seq![self.x, self.y]
    }
}

impl<S> View for Point3<S> {
    type V = Seq<S>;

    open spec fn view(&self) -> Seq<S> {
        seq![self.x, self.y, self.z]
    }
}

/// The text of a view's components, separated by commas.
pub open spec fn components_text<S: Scalar>(a: Seq<S>) -> Seq<char>
    decreases a.len(),
{
    if a.len() == 0 {
        Seq::empty()
    } else if a.len() == 1 {
        a[0].digits()
    } else {
        components_text(a.drop_last()) + seq![',', ' '] + a.last().digits()
    }
}

/// The bracketed text of a view, `[c0, c1, ...]`.
pub open spec fn bracketed_text<S: Scalar>(a: Seq<S>) -> Seq<char> {
    seq!['['] + components_text(a) + seq![']']
}

/// The numeric operations shared by every point type of scalar `S` with
/// companion vector type `V` of the same dimension.  Each operation is
/// specified componentwise over the views; the in-place operations are
/// described per index, as the element-wise mutation primitive visits each
/// slot once.
pub trait Point<S: Scalar, V: Array<S>>: Array<S> {
    /// The point with every component equal to the scalar zero.
    fn origin() -> (r: Self)
        ensures
            r@ == Seq::new(Self::dim(), |_k: int| S::zero_spec()),
    ;

    /// The point whose components are those of the vector.
    fn from_vec(v: &V) -> (r: Self)
        requires
            v@.len() == Self::dim(),
        ensures
            r@ == v@,
    ;

    /// The vector whose components are those of this point.
    fn to_vec(&self) -> (r: V)
        ensures
            r@ == self@,
    ;

    /// Multiply each component by a scalar, returning the new point.
    /// Implemented once for every point type: a copy of the point, visited
    /// in place.
    fn mul_s(&self, s: S) -> (r: Self)
        requires
            scale_mul_ok(self@, s),
        ensures
            r@ == scale_mul(self@, s),
    {
        let mut r = *self;
        r.mul_self_s(s);
        proof {
            assert(r@ =~= scale_mul(self@, s));
        }
        r
    }

    /// Divide each component by a scalar, returning the new point.
    fn div_s(&self, s: S) -> (r: Self)
        requires
            scale_div_ok(self@, s),
        ensures
            r@ == scale_div(self@, s),
    {
        let mut r = *self;
        r.div_self_s(s);
        proof {
            assert(r@ =~= scale_div(self@, s));
        }
        r
    }

    /// Take the remainder of each component by a scalar, returning the new
    /// point.
    fn rem_s(&self, s: S) -> (r: Self)
        requires
            scale_rem_ok(self@, s),
        ensures
            r@ == scale_rem(self@, s),
    {
        let mut r = *self;
        r.rem_self_s(s);
        proof {
            assert(r@ =~= scale_rem(self@, s));
        }
        r
    }

    /// Add a vector to this point, returning the translated point.
    fn add_v(&self, other: &V) -> (r: Self)
        requires
            add_ok_each(self@, other@),
        ensures
            r@ == add_each(self@, other@),
    {
        let mut r = *self;
        r.add_self_v(other);
        proof {
            assert(r@ =~= add_each(self@, other@));
        }
        r
    }

    /// Subtract another point from this one, returning the displacement
    /// from `other` to `self` as a vector.
    fn sub_p(&self, other: &Self) -> (r: V)
        requires
            sub_ok_each(self@, other@),
        ensures
            r@ == sub_each(self@, other@),
    ;

    /// Multiply each component by a scalar, in place.  Implemented once for
    /// every point type, by visiting each component through the container
    /// access capability.
    fn mul_self_s(&mut self, s: S)
        requires
            scale_mul_ok(old(self)@, s),
        ensures
            final(self)@.len() == old(self)@.len(),
            forall|k: int|
                0 <= k < old(self)@.len() ==> final(self)@[k] == (#[trigger] old(
                    self,
                )@[k]).mul_spec(s),
    {
        proof {
            self.dim_is_len();
        }
        let n = Self::dims();
        let mut idx: usize = 0;
        while idx < n
            invariant
                idx <= n,
                n == Self::dim(),
                self@.len() == old(self)@.len(),
                old(self)@.len() == Self::dim(),
                scale_mul_ok(old(self)@, s),
                forall|k: int|
                    0 <= k < idx ==> self@[k] == (#[trigger] old(self)@[k]).mul_spec(s),
                forall|k: int| idx <= k < old(self)@.len() ==> self@[k] == old(self)@[k],
            decreases n - idx,
        {
            proof {
                assert(self@[idx as int] == (#[trigger] old(self)@[idx as int]));
            }
            let v = self.i(idx);
            self.set_i(idx, v.mul_val(s));
            idx = idx + 1;
        }
    }

    /// Divide each component by a scalar, in place.
    fn div_self_s(&mut self, s: S)
        requires
            scale_div_ok(old(self)@, s),
        ensures
            final(self)@.len() == old(self)@.len(),
            forall|k: int|
                0 <= k < old(self)@.len() ==> final(self)@[k] == (#[trigger] old(
                    self,
                )@[k]).div_spec(s),
    {
        proof {
            self.dim_is_len();
        }
        let n = Self::dims();
        let mut idx: usize = 0;
        while idx < n
            invariant
                idx <= n,
                n == Self::dim(),
                self@.len() == old(self)@.len(),
                old(self)@.len() == Self::dim(),
                scale_div_ok(old(self)@, s),
                forall|k: int|
                    0 <= k < idx ==> self@[k] == (#[trigger] old(self)@[k]).div_spec(s),
                forall|k: int| idx <= k < old(self)@.len() ==> self@[k] == old(self)@[k],
            decreases n - idx,
        {
            proof {
                assert(self@[idx as int] == (#[trigger] old(self)@[idx as int]));
            }
            let v = self.i(idx);
            self.set_i(idx, v.div_val(s));
            idx = idx + 1;
        }
    }

    /// Take the remainder of each component by a scalar, in place.
    fn rem_self_s(&mut self, s: S)
        requires
            scale_rem_ok(old(self)@, s),
        ensures
            final(self)@.len() == old(self)@.len(),
            forall|k: int|
                0 <= k < old(self)@.len() ==> final(self)@[k] == (#[trigger] old(
                    self,
                )@[k]).rem_spec(s),
    {
        proof {
            self.dim_is_len();
        }
        let n = Self::dims();
        let mut idx: usize = 0;
        while idx < n
            invariant
                idx <= n,
                n == Self::dim(),
                self@.len() == old(self)@.len(),
                old(self)@.len() == Self::dim(),
                scale_rem_ok(old(self)@, s),
                forall|k: int|
                    0 <= k < idx ==> self@[k] == (#[trigger] old(self)@[k]).rem_spec(s),
                forall|k: int| idx <= k < old(self)@.len() ==> self@[k] == old(self)@[k],
            decreases n - idx,
        {
            proof {
                assert(self@[idx as int] == (#[trigger] old(self)@[idx as int]));
            }
            let v = self.i(idx);
            self.set_i(idx, v.rem_val(s));
            idx = idx + 1;
        }
    }

    /// Add a vector to this point, in place.
    fn add_self_v(&mut self, other: &V)
        requires
            add_ok_each(old(self)@, other@),
        ensures
            final(self)@.len() == old(self)@.len(),
            forall|k: int|
                0 <= k < old(self)@.len() ==> final(self)@[k] == (#[trigger] old(
                    self,
                )@[k]).add_spec(other@[k]),
    {
        proof {
            self.dim_is_len();
            other.dim_is_len();
        }
        let n = Self::dims();
        let mut idx: usize = 0;
        while idx < n
            invariant
                idx <= n,
                n == Self::dim(),
                self@.len() == old(self)@.len(),
                old(self)@.len() == Self::dim(),
                other@.len() == old(self)@.len(),
                other@.len() == V::dim(),
                add_ok_each(old(self)@, other@),
                forall|k: int|
                    0 <= k < idx ==> self@[k] == (#[trigger] old(self)@[k]).add_spec(other@[k]),
                forall|k: int| idx <= k < old(self)@.len() ==> self@[k] == old(self)@[k],
            decreases n - idx,
        {
            proof {
                assert(self@[idx as int] == (#[trigger] old(self)@[idx as int]));
            }
            let v = self.i(idx);
            let w = other.i(idx);
            self.set_i(idx, v.add_val(w));
            idx = idx + 1;
        }
    }

    /// The sum over the components of this point times the corresponding
    /// components of the vector; useful for plane and half-space tests,
    /// treating the point as a position vector from the origin.
    fn dot(&self, v: &V) -> (r: S)
        requires
            dot_ok(self@, v@),
        ensures
            r == dot_spec(self@, v@),
    ;
}

impl<S: Scalar> Point2<S> {
    pub fn new(x: S, y: S) -> (r: Point2<S>)
        ensures
            r@ == seq![x, y],
    {
        Point2 { x, y }
    }

    /// The point's text, `[x, y]`; for logging and debugging only.
    pub fn to_text(&self) -> (r: String)
        ensures
            r@ == bracketed_text(self@),
    {
        let mut out = "[".to_owned();
        out.append(self.x.to_digits().as_str());
        out.append(", ");
        out.append(self.y.to_digits().as_str());
        out.append("]");
        proof {
            reveal_with_fuel(components_text, 3);
            reveal_strlit("[");
            reveal_strlit(", ");
            reveal_strlit("]");
            assert(self@.drop_last() =~= seq![self.x]);
            assert(out@ =~= bracketed_text(self@));
        }
        out
    }
}

impl<S: Scalar> Point3<S> {
    pub fn new(x: S, y: S, z: S) -> (r: Point3<S>)
        ensures
            r@ == seq![x, y, z],
    {
        Point3 { x, y, z }
    }

    /// The affine point recovered from a homogeneous 4-component vector:
    /// the first three components each divided by the weight `w`.  Division
    /// by a zero weight is left out of the domain, as the scalar's own
    /// division is.
    pub fn from_homogeneous(v: &Vector4<S>) -> (r: Point3<S>)
        requires
            from_homogeneous_ok(v@),
        ensures
            r@ == from_homogeneous_each(v@),
    {
        let e = v.truncate();
        proof {
            assert(e@ =~= seq![v.x, v.y, v.z]);
            assert(v@[0] == v.x && v@[1] == v.y && v@[2] == v.z && v@[3] == v.w);
        }
        let r = Point3::new(e.x.div_val(v.w), e.y.div_val(v.w), e.z.div_val(v.w));
        proof {
            assert(r@ =~= from_homogeneous_each(v@));
        }
        r
    }

    /// This point embedded in projective space: `(x, y, z, 1)`.
    pub fn to_homogeneous(&self) -> (r: Vector4<S>)
        ensures
            r@ == self@.push(S::one_spec()),
    {
        let r = Vector4::new(self.x, self.y, self.z, S::one());
        proof {
            assert(r@ =~= self@.push(S::one_spec()));
        }
        r
    }

    /// The point's text, `[x, y, z]`; for logging and debugging only.
    pub fn to_text(&self) -> (r: String)
        ensures
            r@ == bracketed_text(self@),
    {
        let mut out = "[".to_owned();
        out.append(self.x.to_digits().as_str());
        out.append(", ");
        out.append(self.y.to_digits().as_str());
        out.append(", ");
        out.append(self.z.to_digits().as_str());
        out.append("]");
        proof {
            reveal_with_fuel(components_text, 4);
            reveal_strlit("[");
            reveal_strlit(", ");
            reveal_strlit("]");
            assert(self@.drop_last() =~= seq![self.x, self.y]);
            assert(self@.drop_last().drop_last() =~= seq![self.x]);
            assert(out@ =~= bracketed_text(self@));
        }
        out
    }
}

impl<S: Scalar> Array<S> for Point2<S> {
    open spec fn dim() -> nat {
        2
    }

    proof fn dim_is_len(&self) {
    }

    fn dims() -> usize {
        2
    }

    fn i(&self, idx: usize) -> S {
        if idx == 0 {
            self.x
        } else {
            self.y
        }
    }

    fn set_i(&mut self, idx: usize, val: S) {
        if idx == 0 {
            self.x = val;
        } else {
            self.y = val;
        }
        proof {
            assert(self@ =~= old(self)@.update(idx as int, val));
        }
    }
}

impl<S: Scalar> Array<S> for Point3<S> {
    open spec fn dim() -> nat {
        3
    }

    proof fn dim_is_len(&self) {
    }

    fn dims() -> usize {
        3
    }

    fn i(&self, idx: usize) -> S {
        if idx == 0 {
            self.x
        } else if idx == 1 {
            self.y
        } else {
            self.z
        }
    }

    fn set_i(&mut self, idx: usize, val: S) {
        if idx == 0 {
            self.x = val;
        } else if idx == 1 {
            self.y = val;
        } else {
            self.z = val;
        }
        proof {
            assert(self@ =~= old(self)@.update(idx as int, val));
        }
    }
}

impl<S: Scalar> Point<S, Vector2<S>> for Point2<S> {
    fn origin() -> Point2<S> {
        let r = Point2::new(S::zero(), S::zero());
        proof {
            assert(r@ =~= Seq::new(Self::dim(), |_k: int| S::zero_spec()));
        }
        r
    }

    fn from_vec(v: &Vector2<S>) -> Point2<S> {
        let r = Point2::new(v.x, v.y);
        proof {
            assert(r@ =~= v@);
        }
        r
    }

    fn to_vec(&self) -> Vector2<S> {
        let r = Vector2::new(self.x, self.y);
        proof {
            assert(r@ =~= self@);
        }
        r
    }

    fn sub_p(&self, other: &Point2<S>) -> Vector2<S> {
        proof {
            assert(self@[0] == self.x && self@[1] == self.y);
            assert(other@[0] == other.x && other@[1] == other.y);
        }
        let r = Vector2::new(self.x.sub_val(other.x), self.y.sub_val(other.y));
        proof {
            assert(r@ =~= sub_each(self@, other@));
        }
        r
    }

    fn dot(&self, v: &Vector2<S>) -> S {
        proof {
            reveal_with_fuel(dot_ok, 3);
            reveal_with_fuel(dot_spec, 3);
            assert(self@[0] == self.x && self@[1] == self.y);
            assert(v@[0] == v.x && v@[1] == v.y);
            assert(self@.drop_last() =~= seq![self.x]);
            assert(v@.drop_last() =~= seq![v.x]);
        }
        let p0 = self.x.mul_val(v.x);
        let p1 = self.y.mul_val(v.y);
        p0.add_val(p1)
    }
}

impl<S: Scalar> Point<S, Vector3<S>> for Point3<S> {
    fn origin() -> Point3<S> {
        let r = Point3::new(S::zero(), S::zero(), S::zero());
        proof {
            assert(r@ =~= Seq::new(Self::dim(), |_k: int| S::zero_spec()));
        }
        r
    }

    fn from_vec(v: &Vector3<S>) -> Point3<S> {
        let r = Point3::new(v.x, v.y, v.z);
        proof {
            assert(r@ =~= v@);
        }
        r
    }

    fn to_vec(&self) -> Vector3<S> {
        let r = Vector3::new(self.x, self.y, self.z);
        proof {
            assert(r@ =~= self@);
        }
        r
    }

    fn sub_p(&self, other: &Point3<S>) -> Vector3<S> {
        proof {
            assert(self@[0] == self.x && self@[1] == self.y && self@[2] == self.z);
            assert(other@[0] == other.x && other@[1] == other.y && other@[2] == other.z);
        }
        let r = Vector3::new(
            self.x.sub_val(other.x),
            self.y.sub_val(other.y),
            self.z.sub_val(other.z),
        );
        proof {
            assert(r@ =~= sub_each(self@, other@));
        }
        r
    }

    fn dot(&self, v: &Vector3<S>) -> S {
        proof {
            reveal_with_fuel(dot_ok, 4);
            reveal_with_fuel(dot_spec, 4);
            assert(self@[0] == self.x && self@[1] == self.y && self@[2] == self.z);
            assert(v@[0] == v.x && v@[1] == v.y && v@[2] == v.z);
            assert(self@.drop_last() =~= seq![self.x, self.y]);
            assert(v@.drop_last() =~= seq![v.x, v.y]);
            assert(self@.drop_last().drop_last() =~= seq![self.x]);
            assert(v@.drop_last().drop_last() =~= seq![v.x]);
        }
        let p0 = self.x.mul_val(v.x);
        let p1 = self.y.mul_val(v.y);
        let p2 = self.z.mul_val(v.z);
        let s01 = p0.add_val(p1);
        s01.add_val(p2)
    }
}

} // verus!
