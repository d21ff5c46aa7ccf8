//! Fractional ownership of an indivisible asset, priced by a deterministic
//! bonding curve.
//!
//! An asset is split into a fixed, strictly positive supply of fungible
//! shares. Shares trade against a pooled treasury at a price quoted by the
//! curve in [`pricing`]; a single buyer may later reassemble the asset by a
//! buyout, after which each remaining holder redeems shares for a pro-rata
//! payout. All valuation arithmetic is carried out in a wide integer domain
//! and fails rather than wraps on overflow.
//!
//! The crate holds the computational core only: quotations, validation and
//! record updates. Custody, currency movement and share minting or burning
//! belong to the surrounding platform, which performs exactly the transfers
//! each operation's outcome dictates.

pub mod errors;
pub mod ledger;
pub mod listing;
pub mod mediator;
pub mod pricing;
