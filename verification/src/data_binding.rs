//! How a piece of bound data is scoped. The store that resolves these
//! scopes at run time is keyed by runtime type identifiers and lives
//! outside the verified library.

use vstd::prelude::*;

verus! {

/// The sharing scope of one bound value.
#[derive(Clone, Copy, Debug, PartialEq, Eq, Structural)]
pub enum DataBindStore {
    /// One per app.
    Global,
    /// Shared while it has the same ID.
    Identified(i32),
    /// Unique to each component.
    Unique,
}

} // verus!
