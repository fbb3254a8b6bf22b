use vstd::prelude::*;
use crate::state::{Config, Store};

verus! {

/// The whole configuration.
pub fn query_config<T>(store: &Store<T>) -> (r: Config)
    ensures
        r@ == store.config@,
{
    store.config.clone()
}

/// Whether the contract is frozen.
pub fn query_frozen<T>(store: &Store<T>) -> (r: bool)
    ensures
        r == store.config.frozen,
{
    store.config.frozen
}

/// How many reservations have been paid for.
pub fn query_reserved<T>(store: &Store<T>) -> (r: i32)
    ensures
        r == store.config.reserved_tokens,
{
    store.config.reserved_tokens
}

} // verus!
