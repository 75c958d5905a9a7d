//! Type constructors that let a query macro compare the type of a given
//! parameter with the expected one even when the parameter is behind a
//! reference or in an `Option`. The `ty_cons` methods exist for type
//! resolution only: they are never meant to run.
use vstd::prelude::*;
use core::marker::PhantomData;

verus! {

/// Holds of no call: the `ty_cons` methods serve type resolution and are
/// never to be called, which their `requires` states with this.
pub open spec fn type_resolution_only() -> bool {
    false
}

/// A marker that carries the type `T` and no value.
pub struct TyCons<T>(pub PhantomData<T>);

impl<T> TyCons<T> {
    /// The marker of the type of `_t`.
    pub fn new(_t: &T) -> (res: TyCons<T>)
        ensures
            res == TyCons::<T>(PhantomData),
    {
        TyCons(PhantomData)
    }
}

impl<T> TyCons<Option<&T>> {
    /// Names `T` for an `Option<&T>`; it is not meant to be called.
    pub fn ty_cons(self) -> T
        requires
            type_resolution_only(),
    {
        vstd::pervasive::unreached()
    }
}

/// Strips one reference or one `Option` off the marked type.
pub trait TyConsExt: Sized {
    type Cons;

    /// Names the stripped type; it is not meant to be called.
    fn ty_cons(self) -> Self::Cons
        requires
            type_resolution_only(),
    {
        vstd::pervasive::unreached()
    }
}

impl<T> TyConsExt for TyCons<&T> {
    type Cons = T;
}

impl<T> TyConsExt for TyCons<Option<T>> {
    type Cons = T;
}

impl<T> TyConsExt for &TyCons<T> {
    type Cons = T;
}

} // verus!
