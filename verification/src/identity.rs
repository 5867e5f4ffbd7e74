//! Identity filters that pass recorded ids through.
//!
//! A recorded id consists of an index, an epoch and a backend. On replay the
//! index and the epoch are kept, so that later actions of the trace find the
//! resource under the id they recorded, and only the backend is replaced by
//! the one of the replaying device.
use vstd::prelude::*;
use core::marker::PhantomData;

verus! {

/// The graphics backend that an id belongs to.
#[verifier::external_type_specification]
#[verifier::external_body]
pub struct ExBackend(wgpu_types::Backend);

/// An id taken apart: its index, its epoch and its backend.
pub type IdParts = (u32, u32, wgpu_types::Backend);

/// The id that replays `id` on `backend`: same index and epoch, new backend.
pub open spec fn passed_through(id: IdParts, backend: wgpu_types::Backend) -> IdParts {
    (id.0, id.1, backend)
}

/// An identity filter for ids of type `I` that keeps the recorded ids.
pub struct IdentityPassThrough<I>(pub PhantomData<I>);

impl<I> IdentityPassThrough<I> {
    /// Gives the id under which the resource recorded as `id` is created on
    /// `backend`. Ids come taken apart, as `wgpu_core::id::TypedId::unzip`
    /// gives them, and go back the same way, to be put together by
    /// `TypedId::zip`.
    pub fn process(&self, id: IdParts, backend: wgpu_types::Backend) -> (r: IdParts)
        ensures
            r == passed_through(id, backend),
    {
        let (index, epoch, _backend) = id;
        (index, epoch, backend)
    }

    /// Releases `id`. Recorded ids are owned by the trace, so nothing is
    /// released.
    pub fn free(&self, id: I) {
    }
}

/// The factory of [`IdentityPassThrough`] filters, one for each kind of id.
pub struct IdentityPassThroughFactory;

impl IdentityPassThroughFactory {
    /// Makes the filter for ids of type `I`.
    pub fn spawn<I>(&self) -> (r: IdentityPassThrough<I>)
        ensures
            r == IdentityPassThrough::<I>(PhantomData),
    {
        IdentityPassThrough(PhantomData)
    }
}

} // verus!
