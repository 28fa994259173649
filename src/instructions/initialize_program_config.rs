use vstd::prelude::*;
use crate::address::Address;
use crate::state::ProgramConfig;

verus! {

/// The program's configuration, naming the one admin key. It is created once
/// and this program never reassigns it.
pub fn handler(admin_authority: Address) -> (r: ProgramConfig)
    ensures
        r.admin_authority == admin_authority,
{
    ProgramConfig { admin_authority }
}

} // verus!
