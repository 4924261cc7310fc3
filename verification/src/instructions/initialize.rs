//! Setting up the program-wide configuration.

use vstd::prelude::*;
use crate::contexts::address::Address;
use crate::contexts::global::Global;
use crate::errors::HypeBondError;

verus! {

/// Marks the configuration as set up and makes `user` its authority.
pub fn initialize(global: &mut Global, user: Address) -> (result: Result<(), HypeBondError>)
    ensures
        result is Ok,
        *final(global) == (Global { initialized: true, authority: user, ..*old(global) }),
{
    global.initialized = true;
    global.authority = user;
    Ok(())
}

} // verus!
