use vstd::prelude::*;

verus! {

/// The failure taxonomy of the marketplace core.
///
/// Every operation either completes in full or aborts with one of these
/// kinds, leaving all state exactly as it was. No operation ever commits
/// a partial result.
#[derive(Clone, Copy, Debug, PartialEq, Eq)]
pub enum ErrorCode {
    /// A community reward percentage above 100 was supplied.
    InvalidPercentage,
    /// A pricing computation left the representable range; amounts are
    /// never silently wrapped or saturated.
    ArithmeticOverflow,
    /// A listing was attempted with a share supply of zero.
    InvalidSupply,
    /// A listing was attempted with an initial unit price of zero.
    InvalidPrice,
    /// A trade or redemption was attempted with an amount of zero.
    InvalidAmount,
}

} // verus!
