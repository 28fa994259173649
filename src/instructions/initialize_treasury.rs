use vstd::prelude::*;
use crate::address::Address;
use crate::fee_distribution::treasury_total;
use crate::state::{Treasury, TreasurySubAccount};

verus! {

pub open spec fn empty_sub_account() -> TreasurySubAccount {
    TreasurySubAccount { sol_balance: 0, last_withdrawal: 0 }
}

/// A new treasury under `initial_authority`, with every sub-account empty.
pub fn initialize_treasury(initial_authority: Address) -> (r: Treasury)
    ensures
        r == (Treasury {
            authority: initial_authority,
            marketing: empty_sub_account(),
            team: empty_sub_account(),
            operations: empty_sub_account(),
            investments: empty_sub_account(),
            crank: empty_sub_account(),
        }),
        treasury_total(r) == 0,
{
    Treasury {
        authority: initial_authority,
        marketing: TreasurySubAccount { sol_balance: 0, last_withdrawal: 0 },
        team: TreasurySubAccount { sol_balance: 0, last_withdrawal: 0 },
        operations: TreasurySubAccount { sol_balance: 0, last_withdrawal: 0 },
        investments: TreasurySubAccount { sol_balance: 0, last_withdrawal: 0 },
        crank: TreasurySubAccount { sol_balance: 0, last_withdrawal: 0 },
    }
}

} // verus!
