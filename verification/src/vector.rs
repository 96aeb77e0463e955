//! Companion displacement vector types.  A vector of dimension N pairs with
//! the point type of the same dimension; the 4-component vector exists for
//! the homogeneous-coordinate conversion of 3-dimensional points.

use vstd::prelude::*;

use crate::array::Array;
use crate::scalar::Scalar;

verus! {

/// A displacement in 2-dimensional space.
#[derive(Clone, Copy, PartialEq, Eq, Debug, Hash)]
pub struct Vector2<S> {
    pub x: S,
    pub y: S,
}

/// A displacement in 3-dimensional space.
#[derive(Clone, Copy, PartialEq, Eq, Debug, Hash)]
pub struct Vector3<S> {
    pub x: S,
    pub y: S,
    pub z: S,
}

/// A 4-component vector: a 3-dimensional point in homogeneous coordinates,
/// with `w` as the weight component.
#[derive(Clone, Copy, PartialEq, Eq, Debug, Hash)]
pub struct Vector4<S> {
    pub x: S,
    pub y: S,
    pub z: S,
    pub w: S,
}

impl<S> View for Vector2<S> {
    type V = Seq<S>;

    open spec fn view(&self) -> Seq<S> {
        seq![self.x, self.y]
    }
}

impl<S> View for Vector3<S> {
    type V = Seq<S>;

    open spec fn view(&self) -> Seq<S> {
        seq![self.x, self.y, self.z]
    }
}

impl<S> View for Vector4<S> {
    type V = Seq<S>;

    open spec fn view(&self) -> Seq<S> {
        seq![self.x, self.y, self.z, self.w]
    }
}

impl<S: Scalar> Vector2<S> {
    pub fn new(x: S, y: S) -> (r: Vector2<S>)
        ensures
            r@ == seq![x, y],
    {
        Vector2 { x, y }
    }
}

impl<S: Scalar> Vector3<S> {
    pub fn new(x: S, y: S, z: S) -> (r: Vector3<S>)
        ensures
            r@ == seq![x, y, z],
    {
        Vector3 { x, y, z }
    }
}

impl<S: Scalar> Vector4<S> {
    pub fn new(x: S, y: S, z: S, w: S) -> (r: Vector4<S>)
        ensures
            r@ == seq![x, y, z, w],
    {
        Vector4 { x, y, z, w }
    }

    /// Drop the weight component, keeping the first three components.
    pub fn truncate(&self) -> (r: Vector3<S>)
        ensures
            r@ == self@.drop_last(),
    {
        let r = Vector3::new(self.x, self.y, self.z);
        proof {
            assert(r@ =~= self@.drop_last());
        }
        r
    }
}

impl<S: Scalar> Array<S> for Vector2<S> {
    open spec fn dim() -> nat {
        2
    }

    proof fn dim_is_len(&self) {
    }

    fn dims() -> usize {
        2
    }

    fn i(&self, idx: usize) -> S {
        if idx == 0 {
            self.x
        } else {
            self.y
        }
    }

    fn set_i(&mut self, idx: usize, val: S) {
        if idx == 0 {
            self.x = val;
        } else {
            self.y = val;
        }
        proof {
            assert(self@ =~= old(self)@.update(idx as int, val));
        }
    }
}

impl<S: Scalar> Array<S> for Vector3<S> {
    open spec fn dim() -> nat {
        3
    }

    proof fn dim_is_len(&self) {
    }

    fn dims() -> usize {
        3
    }

    fn i(&self, idx: usize) -> S {
        if idx == 0 {
            self.x
        } else if idx == 1 {
            self.y
        } else {
            self.z
        }
    }

    fn set_i(&mut self, idx: usize, val: S) {
        if idx == 0 {
            self.x = val;
        } else if idx == 1 {
            self.y = val;
        } else {
            self.z = val;
        }
        proof {
            assert(self@ =~= old(self)@.update(idx as int, val));
        }
    }
}

impl<S: Scalar> Array<S> for Vector4<S> {
    open spec fn dim() -> nat {
        4
    }

    proof fn dim_is_len(&self) {
    }

    fn dims() -> usize {
        4
    }

    fn i(&self, idx: usize) -> S {
        if idx == 0 {
            self.x
        } else if idx == 1 {
            self.y
        } else if idx == 2 {
            self.z
        } else {
            self.w
        }
    }

    fn set_i(&mut self, idx: usize, val: S) {
        if idx == 0 {
            self.x = val;
        } else if idx == 1 {
            self.y = val;
        } else if idx == 2 {
            self.z = val;
        } else {
            self.w = val;
        }
        proof {
            assert(self@ =~= old(self)@.update(idx as int, val));
        }
    }
}

} // verus!
