use soroban_sdk::{Address, Env};
use starfund_escrow::keys::{
    callback_context, callback_nonce, funding_close_snapshot, funding_deadline, funding_token,
    funding_token_scale, investor_claim_not_before, investor_claimed, investor_contribution,
    investor_effective_yield, investor_index, max_per_investor_cap, max_unique_investors_cap,
    min_contribution_floor, released_amount, unique_funder_count, DataKey,
};

const ACCOUNT_ZERO: &str = "GAAAAAAAAAAAAAAAAAAAAAAAAAAAAAAAAAAAAAAAAAAAAAAAAAAAAWHF";
const CONTRACT_ZERO: &str = "CAAQCAIBAEAQCAIBAEAQCAIBAEAQCAIBAEAQCAIBAEAQCAIBAEAQC526";

#[test]
fn investor_keys_carry_their_investor() {
    let env = Env::default();
    let a = Address::from_str(&env, ACCOUNT_ZERO);
    assert_eq!(investor_contribution(a.clone()), DataKey::InvestorContribution(a.clone()));
    assert_eq!(investor_effective_yield(a.clone()), DataKey::InvestorEffectiveYield(a.clone()));
    assert_eq!(investor_claim_not_before(a.clone()), DataKey::InvestorClaimNotBefore(a.clone()));
    assert_eq!(investor_claimed(a.clone()), DataKey::InvestorClaimed(a));
}

#[test]
fn investor_keys_never_alias_across_investors_or_families() {
    let env = Env::default();
    let a = Address::from_str(&env, ACCOUNT_ZERO);
    let b = Address::from_str(&env, CONTRACT_ZERO);
    assert_ne!(investor_contribution(a.clone()), investor_contribution(b.clone()));
    assert_ne!(investor_claimed(a.clone()), investor_claimed(b.clone()));
    assert_ne!(investor_contribution(a.clone()), investor_effective_yield(a.clone()));
    assert_ne!(investor_claim_not_before(a.clone()), investor_claimed(a.clone()));
    assert_ne!(investor_contribution(a), unique_funder_count());
}

#[test]
fn singleton_keys_are_their_variants() {
    assert_eq!(min_contribution_floor(), DataKey::MinContributionFloor);
    assert_eq!(max_unique_investors_cap(), DataKey::MaxUniqueInvestorsCap);
    assert_eq!(max_per_investor_cap(), DataKey::MaxPerInvestorCap);
    assert_eq!(unique_funder_count(), DataKey::UniqueFunderCount);
    assert_eq!(investor_index(), DataKey::InvestorIndex);
    assert_eq!(funding_deadline(), DataKey::FundingDeadline);
    assert_eq!(funding_close_snapshot(), DataKey::FundingCloseSnapshot);
    assert_eq!(funding_token(), DataKey::FundingToken);
    assert_eq!(funding_token_scale(), DataKey::FundingTokenScale);
    assert_eq!(callback_nonce(), DataKey::CallbackNonce);
    assert_eq!(released_amount(), DataKey::ReleasedAmount);
}

#[test]
fn singleton_keys_are_pairwise_distinct() {
    let keys = vec![
        min_contribution_floor(),
        max_unique_investors_cap(),
        max_per_investor_cap(),
        unique_funder_count(),
        investor_index(),
        funding_deadline(),
        funding_close_snapshot(),
        funding_token(),
        funding_token_scale(),
        callback_nonce(),
        released_amount(),
    ];
    for i in 0..keys.len() {
        for j in 0..keys.len() {
            assert_eq!(keys[i] == keys[j], i == j);
        }
    }
}

#[test]
fn callback_context_is_keyed_by_nonce() {
    assert_eq!(callback_context(7), DataKey::CallbackContext(7));
    assert_ne!(callback_context(7), callback_context(8));
    assert_ne!(callback_context(0), callback_nonce());
}
