//! Centralised constructors for the escrow's storage keys.
//!
//! Every instance- and persistent-storage key is a variant of [`DataKey`].
//! Call sites build keys only through the functions below, so a key family
//! cannot drift between modules.

use vstd::prelude::*;
use soroban_sdk::Address;

verus! {

/// The storage keys used by the funding, claim and release paths.
#[derive(Clone, Debug, PartialEq, Eq)]
pub enum DataKey {
    /// Per-investor persistent principal.
    InvestorContribution(Address),
    /// Per-investor effective yield (bps) chosen on the first deposit.
    InvestorEffectiveYield(Address),
    /// Per-investor claim-not-before ledger timestamp.
    InvestorClaimNotBefore(Address),
    /// Per-investor claimed-payout marker.
    InvestorClaimed(Address),
    /// Minimum per-call contribution floor.
    MinContributionFloor,
    /// Cap on distinct investor addresses.
    MaxUniqueInvestorsCap,
    /// Cap on the total principal of one investor.
    MaxPerInvestorCap,
    /// Count of distinct investors that have funded.
    UniqueFunderCount,
    /// Ordered list of investor addresses used by paginated reads.
    InvestorIndex,
    /// Optional funding deadline timestamp.
    FundingDeadline,
    /// Write-once pro-rata snapshot taken at the first funded transition.
    FundingCloseSnapshot,
    /// Immutable SEP-41 funding token address.
    FundingToken,
    /// Immutable decimal scale of the funding token.
    FundingTokenScale,
    /// Invocation nonce for cross-contract callbacks.
    CallbackNonce,
    /// Pending callback context keyed by invocation nonce.
    CallbackContext(u64),
    /// Running total of principal released to the SME.
    ReleasedAmount,
}

/// The keys of the singleton families, in the order their constructors are
/// declared.
pub open spec fn singleton_keys() -> Seq<DataKey> {
    seq![
        DataKey::MinContributionFloor,
        DataKey::MaxUniqueInvestorsCap,
        DataKey::MaxPerInvestorCap,
        DataKey::UniqueFunderCount,
        DataKey::InvestorIndex,
        DataKey::FundingDeadline,
        DataKey::FundingCloseSnapshot,
        DataKey::FundingToken,
        DataKey::FundingTokenScale,
        DataKey::CallbackNonce,
        DataKey::ReleasedAmount,
    ]
}

/// The key of `family` (0 to 3: contribution, effective yield,
/// claim-not-before, claimed) for `investor`.
pub open spec fn investor_key(family: int, investor: Address) -> DataKey {
    if family == 0 {
        DataKey::InvestorContribution(investor)
    } else if family == 1 {
        DataKey::InvestorEffectiveYield(investor)
    } else if family == 2 {
        DataKey::InvestorClaimNotBefore(investor)
    } else {
        DataKey::InvestorClaimed(investor)
    }
}

/// Distinct constructors, or one constructor on distinct arguments, give
/// distinct `DataKey` values: singleton keys are pairwise distinct values,
/// per-investor keys of two families, or of two distinct address values,
/// differ, callback contexts of two nonces differ, and no parameterised key
/// equals a singleton key. This is distinctness of values; whether two
/// distinct `Address` values name the same account is decided by the host
/// and is not stated here.
pub proof fn lemma_keys_never_alias(f: int, g: int, a: Address, b: Address, n: u64, m: u64)
    requires
        0 <= f < 4,
        0 <= g < 4,
    ensures
        forall|i: int, j: int|
            0 <= i < j < singleton_keys().len() ==> singleton_keys()[i] != singleton_keys()[j],
        (investor_key(f, a) == investor_key(g, b)) <==> (f == g && a == b),
        (DataKey::CallbackContext(n) == DataKey::CallbackContext(m)) <==> n == m,
        investor_key(f, a) != DataKey::CallbackContext(n),
        forall|i: int|
            0 <= i < singleton_keys().len() ==> #[trigger] singleton_keys()[i] != investor_key(f, a)
                && singleton_keys()[i] != DataKey::CallbackContext(n),
{
}

/// Per-investor principal recorded by the funding entrypoints.
pub fn investor_contribution(investor: Address) -> (key: DataKey)
    ensures
        key == DataKey::InvestorContribution(investor),
{
    DataKey::InvestorContribution(investor)
}

/// Per-investor effective yield (bps) selected on the investor's first deposit.
pub fn investor_effective_yield(investor: Address) -> (key: DataKey)
    ensures
        key == DataKey::InvestorEffectiveYield(investor),
{
    DataKey::InvestorEffectiveYield(investor)
}

/// Per-investor claim-not-before ledger timestamp (`0` means no extra claim gate).
pub fn investor_claim_not_before(investor: Address) -> (key: DataKey)
    ensures
        key == DataKey::InvestorClaimNotBefore(investor),
{
    DataKey::InvestorClaimNotBefore(investor)
}

/// Per-investor claimed-payout marker.
pub fn investor_claimed(investor: Address) -> (key: DataKey)
    ensures
        key == DataKey::InvestorClaimed(investor),
{
    DataKey::InvestorClaimed(investor)
}

/// Minimum per-call contribution floor (`0` means no floor).
pub fn min_contribution_floor() -> (key: DataKey)
    ensures
        key == DataKey::MinContributionFloor,
{
    DataKey::MinContributionFloor
}

/// Cap on distinct investor addresses (absent means only the hard ceiling applies).
pub fn max_unique_investors_cap() -> (key: DataKey)
    ensures
        key == DataKey::MaxUniqueInvestorsCap,
{
    DataKey::MaxUniqueInvestorsCap
}

/// Cap on the total principal of a single investor (absent means unlimited).
pub fn max_per_investor_cap() -> (key: DataKey)
    ensures
        key == DataKey::MaxPerInvestorCap,
{
    DataKey::MaxPerInvestorCap
}

/// Count of distinct investor addresses that have funded so far.
pub fn unique_funder_count() -> (key: DataKey)
    ensures
        key == DataKey::UniqueFunderCount,
{
    DataKey::UniqueFunderCount
}

/// Ordered list of investor addresses backing paginated enumeration.
pub fn investor_index() -> (key: DataKey)
    ensures
        key == DataKey::InvestorIndex,
{
    DataKey::InvestorIndex
}

/// Optional funding deadline timestamp (absent means no deadline).
pub fn funding_deadline() -> (key: DataKey)
    ensures
        key == DataKey::FundingDeadline,
{
    DataKey::FundingDeadline
}

/// Write-once pro-rata snapshot captured at the first funded transition.
pub fn funding_close_snapshot() -> (key: DataKey)
    ensures
        key == DataKey::FundingCloseSnapshot,
{
    DataKey::FundingCloseSnapshot
}

/// Immutable SEP-41 funding token address, set once at initialisation.
pub fn funding_token() -> (key: DataKey)
    ensures
        key == DataKey::FundingToken,
{
    DataKey::FundingToken
}

/// Immutable decimal scale of the funding token, set once at initialisation.
pub fn funding_token_scale() -> (key: DataKey)
    ensures
        key == DataKey::FundingTokenScale,
{
    DataKey::FundingTokenScale
}

/// Invocation nonce for cross-contract callbacks.
pub fn callback_nonce() -> (key: DataKey)
    ensures
        key == DataKey::CallbackNonce,
{
    DataKey::CallbackNonce
}

/// Pending callback context keyed by invocation nonce.
pub fn callback_context(nonce: u64) -> (key: DataKey)
    ensures
        key == DataKey::CallbackContext(nonce),
{
    DataKey::CallbackContext(nonce)
}

/// Running total of principal released to the SME.
pub fn released_amount() -> (key: DataKey)
    ensures
        key == DataKey::ReleasedAmount,
{
    DataKey::ReleasedAmount
}

} // verus!
