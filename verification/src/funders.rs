//! The ceiling on distinct investor addresses.
//!
//! A first deposit from a new investor takes a slot; follow-on deposits from
//! an investor who already holds principal take none. Besides the optional
//! configured cap, the hard ceiling [`MAX_UNIQUE_INVESTORS`] always applies,
//! so the investor index that paginated reads walk stays finite.

use vstd::prelude::*;
use crate::StarfundEscrow;

verus! {

/// Unconditional ceiling on distinct investor addresses, enforced even when
/// no cap was configured.
pub const MAX_UNIQUE_INVESTORS: u32 = 10_000;

/// Typed funding errors of the unique-funder check.
pub enum EscrowError {
    /// A new investor tried to fund when every slot was taken.
    UniqueInvestorCapReached,
}

impl EscrowError {
    /// The contract error code of this error.
    pub fn code(&self) -> (c: u32)
        ensures
            c == 107,
    {
        match self {
            EscrowError::UniqueInvestorCapReached => 107,
        }
    }
}

/// The number of distinct investors admitted: the configured cap when there
/// is one, never more than [`MAX_UNIQUE_INVESTORS`].
pub open spec fn unique_funder_ceiling(configured_cap: Option<u32>) -> int {
    match configured_cap {
        Some(cap) if cap < MAX_UNIQUE_INVESTORS => cap as int,
        _ => MAX_UNIQUE_INVESTORS as int,
    }
}

/// The unique-funder count after a deposit by an investor whose principal so
/// far is `prev_contribution`; `None` when the deposit must be refused.
pub open spec fn next_unique_funder_count(
    count: u32,
    prev_contribution: i128,
    configured_cap: Option<u32>,
) -> Option<int> {
    if prev_contribution != 0 {
        Some(count as int)
    } else if count < unique_funder_ceiling(configured_cap) {
        Some(count + 1)
    } else {
        None
    }
}

impl StarfundEscrow {
    /// Admits a deposit against the unique-funder ceiling and returns the new
    /// unique-funder count. An investor with principal already recorded keeps
    /// the count unchanged; a new investor (`prev_contribution == 0`) takes a
    /// slot when one is free and is refused with
    /// [`EscrowError::UniqueInvestorCapReached`] otherwise.
    pub fn admit_unique_funder(
        unique_funder_count: u32,
        prev_contribution: i128,
        configured_cap: Option<u32>,
    ) -> (r: Result<u32, EscrowError>)
        ensures
            next_unique_funder_count(unique_funder_count, prev_contribution, configured_cap) matches Some(n)
                ==> r matches Ok(m) && m == n,
            next_unique_funder_count(unique_funder_count, prev_contribution, configured_cap) is None
                ==> r matches Err(EscrowError::UniqueInvestorCapReached),
            prev_contribution != 0 ==> r == Ok::<u32, EscrowError>(unique_funder_count),
            prev_contribution == 0 && unique_funder_count < MAX_UNIQUE_INVESTORS && (
            configured_cap is None || unique_funder_count < configured_cap.unwrap()) ==> r
                == Ok::<u32, EscrowError>((unique_funder_count + 1) as u32),
            prev_contribution == 0 && (unique_funder_count >= MAX_UNIQUE_INVESTORS || (
            configured_cap is Some && unique_funder_count >= configured_cap.unwrap())) ==> r
                == Err::<u32, EscrowError>(EscrowError::UniqueInvestorCapReached),
    {
        if prev_contribution != 0 {
            return Ok(unique_funder_count);
        }
        let ceiling = match configured_cap {
            Some(cap) => if cap < MAX_UNIQUE_INVESTORS { cap } else { MAX_UNIQUE_INVESTORS },
            None => MAX_UNIQUE_INVESTORS,
        };
        if unique_funder_count < ceiling {
            Ok(unique_funder_count + 1)
        } else {
            Err(EscrowError::UniqueInvestorCapReached)
        }
    }
}

/// The unique-funder count never passes the hard ceiling, nor a configured
/// cap: from a count within the ceiling, every admitted deposit leaves the
/// count within it, and the count never decreases.
pub proof fn lemma_unique_funders_stay_within_ceiling(
    count: u32,
    prev_contribution: i128,
    configured_cap: Option<u32>,
)
    requires
        count <= unique_funder_ceiling(configured_cap),
    ensures
        next_unique_funder_count(count, prev_contribution, configured_cap) matches Some(n) ==> (count
            <= n <= unique_funder_ceiling(configured_cap) && n <= MAX_UNIQUE_INVESTORS),
{
}

/// A deposit from an investor who already holds principal takes no slot: the
/// unique-funder count after it is the count before it, whatever the count
/// and the cap.
pub proof fn lemma_follow_on_deposit_keeps_count(
    count: u32,
    prev_contribution: i128,
    configured_cap: Option<u32>,
)
    requires
        prev_contribution != 0,
    ensures
        next_unique_funder_count(count, prev_contribution, configured_cap) == Some(count as int),
{
}

/// A first deposit from a new investor is admitted exactly when the count is
/// below both the hard ceiling and the configured cap, if any; an admitted
/// new investor raises the count by exactly one.
pub proof fn lemma_new_investor_takes_one_slot(
    count: u32,
    configured_cap: Option<u32>,
)
    ensures
        (count < MAX_UNIQUE_INVESTORS && (configured_cap is None || count < configured_cap.unwrap()))
            ==> next_unique_funder_count(count, 0, configured_cap) == Some(count + 1),
        !(count < MAX_UNIQUE_INVESTORS && (configured_cap is None || count
            < configured_cap.unwrap())) ==> next_unique_funder_count(count, 0, configured_cap) is None,
{
}

} // verus!
