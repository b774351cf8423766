use vstd::prelude::*;

use crate::state::{CreatorAccount, Principal};

verus! {

/// What registering a creator reads: the creator's identity and the
/// derivation seeds that the host found for the record and its two vaults.
/// The host refuses to create a record that already exists.
#[derive(Clone, Copy, Debug)]
pub struct InitializeCreator {
    pub creator: Principal,
    pub sol_vault_bump: u8,
    pub usdc_vault_bump: u8,
    pub creator_account_bump: u8,
}

/// The new record of a creator: bound to the creator's identity and vaults,
/// with nothing received yet.
pub fn process_initialize_creator(ctx: &InitializeCreator) -> (r: CreatorAccount)
    ensures
        r == (CreatorAccount {
            creator: ctx.creator,
            total_tips_sol: 0,
            total_tips_usdc: 0,
            tip_count: 0,
            sol_vault_bump: ctx.sol_vault_bump,
            usdc_vault_bump: ctx.usdc_vault_bump,
            bump: ctx.creator_account_bump,
        }),
{
    CreatorAccount {
        creator: ctx.creator,
        total_tips_sol: 0,
        total_tips_usdc: 0,
        tip_count: 0,
        sol_vault_bump: ctx.sol_vault_bump,
        usdc_vault_bump: ctx.usdc_vault_bump,
        bump: ctx.creator_account_bump,
    }
}

} // verus!
