//! An inventory-management backend: users with token sessions and roles,
//! products with properties, tags with product bindings, stock levels with
//! history, and bulk export/import of the dataset. Every mutating endpoint
//! enforces a token-derived role check before it touches the store.

use vstd::prelude::*;

pub mod auth;
pub mod errors;
pub mod laws;
pub mod lookup;
pub mod migration;
pub mod products;
pub mod stock;
pub mod tags;
pub mod types;

verus! {

/// The unauthenticated probe endpoint: a fixed welcome string.
pub fn test() -> (r: &'static str)
    ensures
        r@ == "Welcome to API!"@,
{
    "Welcome to API!"
}

} // verus!
