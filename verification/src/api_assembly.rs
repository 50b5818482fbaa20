//! The API assembly of the GitHub application: which route crates it mounts.

use vstd::prelude::*;

verus! {

/// The route crates the API assembly mounts: the app API and the backend
/// API.
pub const ROUTE_CRATE_COUNT: usize = 2;

/// The number of route crates the API assembly mounts.
pub fn assembly_route_count() -> (n: usize)
    ensures
        n == ROUTE_CRATE_COUNT,
{
    ROUTE_CRATE_COUNT
}

} // verus!
