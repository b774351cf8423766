use vstd::prelude::*;

use crate::fee::DEFAULT_FEE_BASIS_POINTS;
use crate::state::{PlatformConfig, Principal};

verus! {

/// What creating the platform configuration reads: the identity that will
/// receive the fees and the record's derivation seed. The host refuses to
/// create the record a second time.
#[derive(Clone, Copy, Debug)]
pub struct InitializePlatformConfig {
    pub authority: Principal,
    pub platform_config_bump: u8,
}

/// The new platform configuration: the caller becomes the authority, the fee
/// is 25 basis points, and no fee has been collected yet.
pub fn process_initialize_platform_config(ctx: &InitializePlatformConfig) -> (r: PlatformConfig)
    ensures
        r == (PlatformConfig {
            authority: ctx.authority,
            fee_basis_points: 25,
            total_fees_collected_sol: 0,
            total_fees_collected_usdc: 0,
            bump: ctx.platform_config_bump,
        }),
        r.wf(),
{
    PlatformConfig {
        authority: ctx.authority,
        fee_basis_points: DEFAULT_FEE_BASIS_POINTS,
        total_fees_collected_sol: 0,
        total_fees_collected_usdc: 0,
        bump: ctx.platform_config_bump,
    }
}

} // verus!
