use vstd::prelude::*;

verus! {

/// An opaque identifier for an account of the surrounding platform: an
/// owner, a token mint, or a custody account. The core stores and hands
/// these values around but never looks inside them.
pub type AccountId = [u8; 32];

/// The singleton marketplace configuration: who administers the deployment
/// and where its currency custody sits. Created once, immutable thereafter.
#[derive(Clone, Copy, Debug, PartialEq, Eq)]
pub struct Marketplace {
    pub authority: AccountId,
    pub treasury: AccountId,
}

/// The record tracking one fractionalized asset: its owner of record, the
/// references the custody layer needs, and the curve state.
///
/// `current_price` is the only field a trade moves; a buyout moves only
/// `owner`; everything else is fixed at listing time.
#[derive(Clone, Copy, Debug, PartialEq, Eq)]
pub struct ListedNFT {
    pub owner: AccountId,
    pub nft_mint: AccountId,
    pub fraction_mint: AccountId,
    pub escrow_account: AccountId,
    pub initial_price: u64,
    pub current_price: u64,
    pub fraction_supply: u64,
    pub community_reward_percentage: u8,
}

impl ListedNFT {
    /// The listing's lifetime invariant: a strictly positive supply and
    /// initial price, and a reward percentage within 0 to 100. Established
    /// at listing time and preserved by every operation.
    pub open spec fn wf(self) -> bool {
        &&& self.fraction_supply > 0
        &&& self.initial_price > 0
        &&& self.community_reward_percentage <= 100
    }

    /// This listing with its unit price moved to `new_price` and every
    /// other field unchanged.
    pub open spec fn with_price(self, new_price: u64) -> ListedNFT {
        ListedNFT { current_price: new_price, ..self }
    }

    /// This listing with its owner of record moved to `new_owner` and every
    /// other field unchanged.
    pub open spec fn with_owner(self, new_owner: AccountId) -> ListedNFT {
        ListedNFT { owner: new_owner, ..self }
    }
}

/// Announces a fresh listing to outside monitors.
#[derive(Clone, Copy, Debug, PartialEq, Eq)]
pub struct NFTListed {
    pub nft_mint: AccountId,
    pub owner: AccountId,
    pub initial_price: u64,
    pub fraction_supply: u64,
    pub community_reward_percentage: u8,
}

/// Announces the curve state after a trade: the new unit price and the
/// buyout valuation it implies.
#[derive(Clone, Copy, Debug, PartialEq, Eq)]
pub struct PriceUpdated {
    pub nft_mint: AccountId,
    pub new_fraction_price: u64,
    pub new_nft_price: u64,
}

/// Announces a completed buyout.
#[derive(Clone, Copy, Debug, PartialEq, Eq)]
pub struct NFTSold {
    pub nft_mint: AccountId,
    pub new_owner: AccountId,
    pub sale_price: u64,
}

} // verus!
