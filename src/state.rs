use vstd::prelude::*;

verus! {

/// An authenticated identity of the host: the 32 bytes of a public key.
#[derive(Clone, Copy, Debug)]
pub struct Principal {
    pub bytes: [u8; 32],
}

impl Principal {
    pub fn new(bytes: [u8; 32]) -> (r: Principal)
        ensures
            r.bytes == bytes,
    {
        Principal { bytes }
    }

    /// Whether two identities are the same key, compared byte by byte.
    pub fn same_as(&self, other: &Principal) -> (r: bool)
        ensures
            r == (*self == *other),
    {
        let mut i: usize = 0;
        while i < 32
            invariant
                0 <= i <= 32,
                forall|k: int| 0 <= k < i ==> self.bytes[k] == other.bytes[k],
            decreases 32 - i,
        {
            if self.bytes[i] != other.bytes[i] {
                return false;
            }
            i = i + 1;
        }
        proof {
            assert(self.bytes =~= other.bytes);
        }
        true
    }
}

/// The two kinds of value that the ledger keeps apart.
#[derive(Clone, Copy, Debug, PartialEq, Eq, Structural)]
pub enum Currency {
    SOL,
    USDC,
}

/// What the ledger records of one creator.
#[derive(Clone, Copy, Debug)]
pub struct CreatorAccount {
    /// The creator's identity: the only one that may withdraw.
    pub creator: Principal,
    /// Received in SOL and not yet withdrawn, in lamports.
    pub total_tips_sol: u64,
    /// Received in USDC and not yet withdrawn, in token units.
    pub total_tips_usdc: u64,
    /// Number of tips received.
    pub tip_count: u64,
    /// Derivation seed of the SOL vault.
    pub sol_vault_bump: u8,
    /// Derivation seed of the USDC vault.
    pub usdc_vault_bump: u8,
    /// Derivation seed of the record itself.
    pub bump: u8,
}

/// The platform's single configuration record.
#[derive(Clone, Copy, Debug)]
pub struct PlatformConfig {
    /// The platform's identity, which receives the fees.
    pub authority: Principal,
    /// The fee, in hundredths of a percent of each withdrawal.
    pub fee_basis_points: u16,
    /// Fees collected in SOL.
    pub total_fees_collected_sol: u64,
    /// Fees collected in USDC.
    pub total_fees_collected_usdc: u64,
    /// Derivation seed of the record.
    pub bump: u8,
}

impl CreatorAccount {
    /// The running total kept for `currency`.
    pub open spec fn total_of(self, currency: Currency) -> u64 {
        match currency {
            Currency::SOL => self.total_tips_sol,
            Currency::USDC => self.total_tips_usdc,
        }
    }

    /// This record with the running total for `currency` set to `value`.
    pub open spec fn with_total(self, currency: Currency, value: u64) -> CreatorAccount {
        match currency {
            Currency::SOL => CreatorAccount { total_tips_sol: value, ..self },
            Currency::USDC => CreatorAccount { total_tips_usdc: value, ..self },
        }
    }

    /// The running total kept for `currency`.
    pub fn total_tips(&self, currency: Currency) -> (r: u64)
        ensures
            r == self.total_of(currency),
    {
        match currency {
            Currency::SOL => self.total_tips_sol,
            Currency::USDC => self.total_tips_usdc,
        }
    }

    /// Sets the running total for `currency`, leaving every other field.
    pub fn set_total_tips(&mut self, currency: Currency, value: u64)
        ensures
            *final(self) == old(self).with_total(currency, value),
    {
        match currency {
            Currency::SOL => self.total_tips_sol = value,
            Currency::USDC => self.total_tips_usdc = value,
        }
    }
}

impl PlatformConfig {
    /// The fee rate lies within `0..=10000` basis points.
    pub open spec fn wf(self) -> bool {
        self.fee_basis_points <= 10000
    }

    /// The fees collected so far in `currency`.
    pub open spec fn fees_of(self, currency: Currency) -> u64 {
        match currency {
            Currency::SOL => self.total_fees_collected_sol,
            Currency::USDC => self.total_fees_collected_usdc,
        }
    }

    /// This record with the fees collected in `currency` set to `value`.
    pub open spec fn with_fees(self, currency: Currency, value: u64) -> PlatformConfig {
        match currency {
            Currency::SOL => PlatformConfig { total_fees_collected_sol: value, ..self },
            Currency::USDC => PlatformConfig { total_fees_collected_usdc: value, ..self },
        }
    }

    /// The fees collected so far in `currency`.
    pub fn fees_collected(&self, currency: Currency) -> (r: u64)
        ensures
            r == self.fees_of(currency),
    {
        match currency {
            Currency::SOL => self.total_fees_collected_sol,
            Currency::USDC => self.total_fees_collected_usdc,
        }
    }

    /// Sets the fees collected in `currency`, leaving every other field.
    pub fn set_fees_collected(&mut self, currency: Currency, value: u64)
        ensures
            *final(self) == old(self).with_fees(currency, value),
    {
        match currency {
            Currency::SOL => self.total_fees_collected_sol = value,
            Currency::USDC => self.total_fees_collected_usdc = value,
        }
    }
}

} // verus!
