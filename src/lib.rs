//! Module resolution and loading decisions for a script runtime.
//!
//! The library resolves import specifiers to absolute module identities,
//! classifies fetched content by media kind, guards JSON content behind an
//! explicit request, and decides whether source text must be transpiled
//! before it is handed to the evaluator. Reading files and talking HTTP
//! happen outside: the library tells the caller which of them to perform
//! next and decides on what comes back.
use vstd::prelude::*;

pub mod text;
pub mod media;
pub mod identity;
pub mod load;

verus! {

} // verus!
