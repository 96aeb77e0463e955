//! The container-access capability: what a fixed-size point or vector type
//! must expose so that the generic point operations can be specified over
//! it — a view as a sequence of scalars, indexed read access, and in-place
//! element replacement.

use vstd::prelude::*;

use crate::scalar::Scalar;

verus! {

/// Indexed access to the components of a fixed-size scalar container.
///
/// The view of a value is the sequence of its components in index order; its
/// length is always `Self::dim()`, which `dim_is_len` states.  Valid indices
/// are exactly `[0, dim())`: the dimension is fixed by the type, so callers
/// never form an index outside that range, and the access methods require it.
pub trait Array<S: Scalar>: View<V = Seq<S>> + Sized + Copy {
    /// The number of components of every value of this type.
    spec fn dim() -> nat;

    /// Every value has exactly `dim()` components.
    proof fn dim_is_len(&self)
        ensures
            self@.len() == Self::dim(),
    ;

    /// The number of components, as a machine word.
    fn dims() -> (r: usize)
        ensures
            r == Self::dim(),
    ;

    /// Read the component at `idx`.
    fn i(&self, idx: usize) -> (r: S)
        requires
            idx < Self::dim(),
        ensures
            r == self@[idx as int],
    ;

    /// Replace the component at `idx`, leaving every other component as it
    /// was.  This is the one mutating primitive; the in-place point
    /// operations are built from it.
    fn set_i(&mut self, idx: usize, val: S)
        requires
            idx < Self::dim(),
        ensures
            final(self)@ == old(self)@.update(idx as int, val),
    ;
}

} // verus!
