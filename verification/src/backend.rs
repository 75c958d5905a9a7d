//! What the query macros need to know of a database backend.
use vstd::prelude::*;

verus! {

/// Maps the type ids of a backend to the Rust types that its parameters
/// take and its columns give, by name.
pub trait BackendExt {
    /// How the backend identifies an SQL type.
    type TypeId;

    /// The name of the Rust type that a parameter of type `id` takes, if the
    /// backend has one.
    fn param_type_for_id(id: &Self::TypeId) -> Option<&'static str>;

    /// The name of the Rust type that a column of type `id` gives, if the
    /// backend has one.
    fn return_type_for_id(id: &Self::TypeId) -> Option<&'static str>;
}

} // verus!
