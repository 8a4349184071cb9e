//! The funds and earnings ledger: authorization, local balance mutation,
//! and the two-phase protocol around the external asset transfer.
//!
//! Operations that move value split at the suspension point of the external
//! call: a `begin` step checks authorization and balances (and, for the
//! campaign funds withdrawal, applies its speculative debit), and hands the
//! host shell a [`TransferRequest`]; a `finish` step takes the
//! [`TransferOutcome`] the gateway produced and commits or compensates.
//! Purely local operations run in one step.

use crate::model::{campaign_like, clone_locations, provider_like, Campaign, CampaignStatus,
    LedgerError, Location, PrincipalId, Provider, ProviderEarnings, TransferDestination,
    TransferOutcome, TransferRequest, TRANSFER_FEE_E8S};
use crate::registry::Registry;
use crate::text::{campaign_id_seq, campaign_id_string, campaign_withdrawal_memo,
    campaign_withdrawal_memo_seq, campaign_withdrawal_receipt, campaign_withdrawal_receipt_seq,
    earnings_key, earnings_key_seq, fund_memo, fund_memo_seq, fund_receipt, fund_receipt_seq,
    payment_receipt, payment_receipt_seq, provider_id_seq, provider_id_string,
    provider_withdrawal_memo, provider_withdrawal_memo_seq, provider_withdrawal_receipt,
    provider_withdrawal_receipt_seq};
use vstd::map::*;
use vstd::prelude::*;

verus! {

/// The whole durable state: three registries and the two id counters.
pub struct Ledger {
    pub campaigns: Registry<Campaign>,
    pub providers: Registry<Provider>,
    pub earnings: Registry<ProviderEarnings>,
    pub campaign_counter: u64,
    pub provider_counter: u64,
}

/// The campaign, with its budget replaced.
pub open spec fn with_budget(c: Campaign, budget: u64) -> Campaign {
    Campaign { budget, ..c }
}

/// The provider, with its accumulated earnings replaced.
pub open spec fn with_earnings(p: Provider, total_earnings: u64) -> Provider {
    Provider { total_earnings, ..p }
}

/// The earnings record, with its accumulated amount replaced.
pub open spec fn with_earned(e: ProviderEarnings, total_earned: u64) -> ProviderEarnings {
    ProviderEarnings { total_earned, ..e }
}

/// The fields a freshly registered provider carries.
pub open spec fn new_provider_fields(
    p: Provider,
    id: Seq<char>,
    name: String,
    owner: Seq<u8>,
    locations: Vec<Location>,
) -> bool {
    &&& p.id@ == id
    &&& p.name == name
    &&& p.owner@ == owner
    &&& p.locations == locations
    &&& p.total_earnings == 0
}

/// The fields a freshly created campaign carries.
pub open spec fn new_campaign_fields(
    c: Campaign,
    id: Seq<char>,
    name: String,
    description: String,
    image: Option<String>,
    locations: Option<Vec<Location>>,
    budget: u64,
    owner: Seq<u8>,
) -> bool {
    &&& c.id@ == id
    &&& c.name == name
    &&& c.description == description
    &&& c.image == image
    &&& c.locations == locations
    &&& c.budget == budget
    &&& c.owner@ == owner
    &&& c.status is Active
}

impl Ledger {
    /// Registries hold pairwise distinct identifiers.
    pub open spec fn wf(self) -> bool {
        &&& self.campaigns.wf()
        &&& self.providers.wf()
        &&& self.earnings.wf()
    }

    /// The campaigns, keyed by campaign identifier.
    pub open spec fn campaigns_map(self) -> Map<Seq<char>, Campaign> {
        self.campaigns.as_map()
    }

    /// The providers, keyed by provider identifier.
    pub open spec fn providers_map(self) -> Map<Seq<char>, Provider> {
        self.providers.as_map()
    }

    /// The earnings records, keyed by `provider_id:campaign_id`.
    pub open spec fn earnings_map(self) -> Map<Seq<char>, ProviderEarnings> {
        self.earnings.as_map()
    }

    /// An empty ledger: no entities, counters at zero.
    pub fn new() -> (r: Ledger)
        ensures
            r.wf(),
            r.campaigns_map() == Map::<Seq<char>, Campaign>::empty(),
            r.providers_map() == Map::<Seq<char>, Provider>::empty(),
            r.earnings_map() == Map::<Seq<char>, ProviderEarnings>::empty(),
            r.campaign_counter == 0,
            r.provider_counter == 0,
    {
        Ledger {
            campaigns: Registry::new(),
            providers: Registry::new(),
            earnings: Registry::new(),
            campaign_counter: 0,
            provider_counter: 0,
        }
    }

    /// Issues a fresh campaign identifier: the counter is bumped first, so
    /// identifiers start at 1 and are never reused.
    pub fn generate_campaign_id(&mut self) -> (r: String)
        requires
            old(self).campaign_counter < u64::MAX,
        ensures
            final(self).campaign_counter == old(self).campaign_counter + 1,
            final(self).campaigns == old(self).campaigns,
            final(self).providers == old(self).providers,
            final(self).earnings == old(self).earnings,
            final(self).provider_counter == old(self).provider_counter,
            r@ == campaign_id_seq((old(self).campaign_counter + 1) as nat),
    {
        self.campaign_counter = self.campaign_counter + 1;
        campaign_id_string(self.campaign_counter)
    }

    /// Issues a fresh provider identifier, in the same way.
    pub fn generate_provider_id(&mut self) -> (r: String)
        requires
            old(self).provider_counter < u64::MAX,
        ensures
            final(self).provider_counter == old(self).provider_counter + 1,
            final(self).campaigns == old(self).campaigns,
            final(self).providers == old(self).providers,
            final(self).earnings == old(self).earnings,
            final(self).campaign_counter == old(self).campaign_counter,
            r@ == provider_id_seq((old(self).provider_counter + 1) as nat),
    {
        self.provider_counter = self.provider_counter + 1;
        provider_id_string(self.provider_counter)
    }

    /// Registers a new provider owned by the caller, with zero earnings.
    /// No transfer is involved; the operation always succeeds.
    pub fn register_provider(
        &mut self,
        caller: &PrincipalId,
        name: String,
        locations: Vec<Location>,
    ) -> (r: Result<String, LedgerError>)
        requires
            old(self).wf(),
            old(self).provider_counter < u64::MAX,
        ensures
            final(self).wf(),
            final(self).provider_counter == old(self).provider_counter + 1,
            final(self).campaigns == old(self).campaigns,
            final(self).earnings == old(self).earnings,
            final(self).campaign_counter == old(self).campaign_counter,
            ({
                let id = provider_id_seq((old(self).provider_counter + 1) as nat);
                &&& r matches Ok(s) && s@ == id
                &&& final(self).providers_map() == old(self).providers_map().insert(
                    id,
                    final(self).providers_map()[id],
                )
                &&& new_provider_fields(
                    final(self).providers_map()[id],
                    id,
                    name,
                    caller@,
                    locations,
                )
            }),
    {
        let provider_id = self.generate_provider_id();
        let provider = Provider {
            id: provider_id.clone(),
            name,
            owner: caller.clone(),
            locations,
            total_earnings: 0,
        };
        self.providers.save(provider_id.clone(), provider);
        proof {
            let id = provider_id_seq((old(self).provider_counter + 1) as nat);
            assert(final(self).providers_map().contains_key(id));
            assert_maps_equal!(final(self).providers_map(),
                old(self).providers_map().insert(id, final(self).providers_map()[id]));
        }
        Ok(provider_id)
    }

    /// Creates a new campaign owned by the caller with the given declared
    /// budget (not yet backed by a transfer).  Always succeeds.
    pub fn create_campaign(
        &mut self,
        caller: &PrincipalId,
        name: String,
        description: String,
        image: Option<String>,
        locations: Option<Vec<Location>>,
        budget: u64,
    ) -> (r: Result<String, LedgerError>)
        requires
            old(self).wf(),
            old(self).campaign_counter < u64::MAX,
        ensures
            final(self).wf(),
            final(self).campaign_counter == old(self).campaign_counter + 1,
            final(self).providers == old(self).providers,
            final(self).earnings == old(self).earnings,
            final(self).provider_counter == old(self).provider_counter,
            ({
                let id = campaign_id_seq((old(self).campaign_counter + 1) as nat);
                &&& r matches Ok(s) && s@ == id
                &&& final(self).campaigns_map() == old(self).campaigns_map().insert(
                    id,
                    final(self).campaigns_map()[id],
                )
                &&& new_campaign_fields(
                    final(self).campaigns_map()[id],
                    id,
                    name,
                    description,
                    image,
                    locations,
                    budget,
                    caller@,
                )
            }),
    {
        let campaign_id = self.generate_campaign_id();
        let campaign = Campaign {
            id: campaign_id.clone(),
            name,
            description,
            image,
            locations,
            budget,
            owner: caller.clone(),
            status: CampaignStatus::Active,
        };
        self.campaigns.save(campaign_id.clone(), campaign);
        proof {
            let id = campaign_id_seq((old(self).campaign_counter + 1) as nat);
            assert(final(self).campaigns_map().contains_key(id));
            assert_maps_equal!(final(self).campaigns_map(),
                old(self).campaigns_map().insert(id, final(self).campaigns_map()[id]));
        }
        Ok(campaign_id)
    }

    /// First phase of funding a campaign: verifies that the campaign exists
    /// and that the caller owns it, and describes the transfer to perform
    /// (the caller's account into the custodial account).  Nothing is
    /// mutated: the credit is committed only after the transfer succeeds.
    pub fn fund_campaign_begin(
        &self,
        caller: &PrincipalId,
        campaign_id: &String,
        amount: u64,
    ) -> (r: Result<TransferRequest, LedgerError>)
        requires
            self.wf(),
        ensures
            ({
                let cs = self.campaigns_map();
                match r {
                    Ok(req) => {
                        &&& cs.contains_key(campaign_id@)
                        &&& cs[campaign_id@].owner@ == caller@
                        &&& req.to is Custodial
                        &&& req.memo@ == fund_memo_seq(campaign_id@)
                        &&& req.amount == amount
                        &&& req.fee == TRANSFER_FEE_E8S
                    },
                    Err(e) => {
                        &&& (e is CampaignNotFound <==> !cs.contains_key(campaign_id@))
                        &&& (e is Unauthorized <==> cs.contains_key(campaign_id@)
                            && cs[campaign_id@].owner@ != caller@)
                        &&& (e is CampaignNotFound || e is Unauthorized)
                    },
                }
            }),
    {
        match self.campaigns.get(campaign_id) {
            None => Err(LedgerError::CampaignNotFound),
            Some(c) => {
                if !c.owner.same_as(caller) {
                    Err(LedgerError::Unauthorized)
                } else {
                    Ok(
                        TransferRequest {
                            to: TransferDestination::Custodial,
                            memo: fund_memo(campaign_id),
                            amount,
                            fee: TRANSFER_FEE_E8S,
                        },
                    )
                }
            },
        }
    }

    /// Second phase of funding a campaign, after the gateway answered.
    /// On a completed transfer the campaign's budget is credited (skipped
    /// silently if the campaign vanished while the call was in flight, as a
    /// concurrent close can make happen); on a failed transfer nothing was
    /// and nothing is mutated, and the failure is surfaced.
    pub fn fund_campaign_finish(
        &mut self,
        campaign_id: &String,
        amount: u64,
        outcome: TransferOutcome,
    ) -> (r: Result<String, LedgerError>)
        requires
            old(self).wf(),
            outcome is Completed && old(self).campaigns_map().contains_key(campaign_id@)
                ==> old(self).campaigns_map()[campaign_id@].budget + amount <= u64::MAX,
        ensures
            final(self).wf(),
            final(self).providers == old(self).providers,
            final(self).earnings == old(self).earnings,
            final(self).campaign_counter == old(self).campaign_counter,
            final(self).provider_counter == old(self).provider_counter,
            match outcome {
                TransferOutcome::Completed(block_index) => {
                    &&& (if old(self).campaigns_map().contains_key(campaign_id@) {
                        final(self).campaigns_map() == old(self).campaigns_map().insert(
                            campaign_id@,
                            with_budget(
                                old(self).campaigns_map()[campaign_id@],
                                (old(self).campaigns_map()[campaign_id@].budget + amount) as u64,
                            ),
                        )
                    } else {
                        final(self).campaigns == old(self).campaigns
                    })
                    &&& r matches Ok(s) && s@ == fund_receipt_seq(block_index as nat)
                },
                TransferOutcome::Failed(text) => {
                    &&& *final(self) == *old(self)
                    &&& r matches Err(LedgerError::TransferFailed(t)) && t == text
                },
            },
    {
        match outcome {
            TransferOutcome::Failed(text) => Err(LedgerError::TransferFailed(text)),
            TransferOutcome::Completed(block_index) => {
                match self.campaigns.remove(campaign_id) {
                    Some(mut c) => {
                        c.budget = c.budget + amount;
                        self.campaigns.save(campaign_id.clone(), c);
                        proof {
                            crate::registry::lemma_insert_over_remove(
                                old(self).campaigns_map(),
                                campaign_id@,
                                final(self).campaigns_map()[campaign_id@],
                            );
                        }
                    },
                    None => {},
                }
                Ok(fund_receipt(block_index))
            },
        }
    }

    /// First phase of a provider's earnings withdrawal: verifies existence,
    /// ownership and a sufficient accumulated balance, and describes the
    /// transfer (custodial account to the caller's account).  Nothing is
    /// mutated until the transfer succeeds.
    pub fn withdraw_provider_earnings_begin(
        &self,
        caller: &PrincipalId,
        provider_id: &String,
        amount: u64,
    ) -> (r: Result<TransferRequest, LedgerError>)
        requires
            self.wf(),
        ensures
            ({
                let ps = self.providers_map();
                match r {
                    Ok(req) => {
                        &&& ps.contains_key(provider_id@)
                        &&& ps[provider_id@].owner@ == caller@
                        &&& ps[provider_id@].total_earnings >= amount
                        &&& req.to matches TransferDestination::Account(p) && p@ == caller@
                        &&& req.memo@ == provider_withdrawal_memo_seq(provider_id@)
                        &&& req.amount == amount
                        &&& req.fee == TRANSFER_FEE_E8S
                    },
                    Err(e) => {
                        &&& (e is ProviderNotFound <==> !ps.contains_key(provider_id@))
                        &&& (e is Unauthorized <==> ps.contains_key(provider_id@)
                            && ps[provider_id@].owner@ != caller@)
                        &&& (e is InsufficientFunds <==> ps.contains_key(provider_id@)
                            && ps[provider_id@].owner@ == caller@
                            && ps[provider_id@].total_earnings < amount)
                        &&& (e is ProviderNotFound || e is Unauthorized || e is InsufficientFunds)
                    },
                }
            }),
    {
        match self.providers.get(provider_id) {
            None => Err(LedgerError::ProviderNotFound),
            Some(p) => {
                if !p.owner.same_as(caller) {
                    Err(LedgerError::Unauthorized)
                } else if p.total_earnings < amount {
                    Err(LedgerError::InsufficientFunds)
                } else {
                    Ok(
                        TransferRequest {
                            to: TransferDestination::Account(caller.clone()),
                            memo: provider_withdrawal_memo(provider_id),
                            amount,
                            fee: TRANSFER_FEE_E8S,
                        },
                    )
                }
            },
        }
    }

    /// Second phase of a provider's earnings withdrawal.  On a completed
    /// transfer the provider's accumulated earnings are debited; the
    /// per-campaign earnings records are deliberately left untouched, so
    /// they carry lifetime gross figures, not a current balance.  On a
    /// failed transfer nothing was and nothing is mutated.
    pub fn withdraw_provider_earnings_finish(
        &mut self,
        provider_id: &String,
        amount: u64,
        outcome: TransferOutcome,
    ) -> (r: Result<String, LedgerError>)
        requires
            old(self).wf(),
            outcome is Completed && old(self).providers_map().contains_key(provider_id@)
                ==> old(self).providers_map()[provider_id@].total_earnings >= amount,
        ensures
            final(self).wf(),
            final(self).campaigns == old(self).campaigns,
            final(self).earnings == old(self).earnings,
            final(self).campaign_counter == old(self).campaign_counter,
            final(self).provider_counter == old(self).provider_counter,
            match outcome {
                TransferOutcome::Completed(block_index) => {
                    &&& (if old(self).providers_map().contains_key(provider_id@) {
                        final(self).providers_map() == old(self).providers_map().insert(
                            provider_id@,
                            with_earnings(
                                old(self).providers_map()[provider_id@],
                                (old(self).providers_map()[provider_id@].total_earnings
                                    - amount) as u64,
                            ),
                        )
                    } else {
                        final(self).providers == old(self).providers
                    })
                    &&& r matches Ok(s) && s@ == provider_withdrawal_receipt_seq(
                        block_index as nat,
                    )
                },
                TransferOutcome::Failed(text) => {
                    &&& *final(self) == *old(self)
                    &&& r matches Err(LedgerError::TransferFailed(t)) && t == text
                },
            },
    {
        match outcome {
            TransferOutcome::Failed(text) => Err(LedgerError::TransferFailed(text)),
            TransferOutcome::Completed(block_index) => {
                match self.providers.remove(provider_id) {
                    Some(mut p) => {
                        p.total_earnings = p.total_earnings - amount;
                        self.providers.save(provider_id.clone(), p);
                        proof {
                            crate::registry::lemma_insert_over_remove(
                                old(self).providers_map(),
                                provider_id@,
                                final(self).providers_map()[provider_id@],
                            );
                        }
                    },
                    None => {},
                }
                Ok(provider_withdrawal_receipt(block_index))
            },
        }
    }

    /// The checks `pay_provider` performs, in order: the campaign exists,
    /// the caller owns it, its budget covers the amount, and the provider
    /// exists.  The payment is applied exactly when all four hold.
    pub open spec fn pay_would_apply(
        self,
        caller: Seq<u8>,
        campaign_id: Seq<char>,
        provider_id: Seq<char>,
        amount: u64,
    ) -> bool {
        &&& self.campaigns_map().contains_key(campaign_id)
        &&& self.campaigns_map()[campaign_id].owner@ == caller
        &&& self.campaigns_map()[campaign_id].budget >= amount
        &&& self.providers_map().contains_key(provider_id)
    }

    /// The machine-range side condition of `pay_provider`: when the payment
    /// applies, the credited accumulators must stay within `u64`.
    pub open spec fn pay_fits(
        self,
        caller: Seq<u8>,
        campaign_id: Seq<char>,
        provider_id: Seq<char>,
        amount: u64,
    ) -> bool {
        self.pay_would_apply(caller, campaign_id, provider_id, amount) ==> {
            &&& self.providers_map()[provider_id].total_earnings + amount <= u64::MAX
            &&& (self.earnings_map().contains_key(earnings_key_seq(provider_id, campaign_id))
                ==> self.earnings_map()[earnings_key_seq(provider_id, campaign_id)].total_earned
                    + amount <= u64::MAX)
        }
    }

    /// Pays a provider out of a campaign's budget.  Purely local and
    /// atomic: the campaign's budget is debited, the provider's accumulated
    /// earnings are credited, and the per-pair earnings record is credited
    /// (created on the first payment of the pair) — all three together, or,
    /// on any refusal, none.  No external transfer is involved: earnings
    /// accrue as an internal liability realized later by withdrawal.
    pub fn pay_provider(
        &mut self,
        caller: &PrincipalId,
        campaign_id: &String,
        provider_id: &String,
        amount: u64,
    ) -> (r: Result<String, LedgerError>)
        requires
            old(self).wf(),
            old(self).pay_fits(caller@, campaign_id@, provider_id@, amount),
        ensures
            final(self).wf(),
            final(self).campaign_counter == old(self).campaign_counter,
            final(self).provider_counter == old(self).provider_counter,
            if old(self).pay_would_apply(caller@, campaign_id@, provider_id@, amount) {
                let cs = old(self).campaigns_map();
                let ps = old(self).providers_map();
                let es = old(self).earnings_map();
                let ekey = earnings_key_seq(provider_id@, campaign_id@);
                &&& final(self).campaigns_map() == cs.insert(
                    campaign_id@,
                    with_budget(
                        cs[campaign_id@],
                        (cs[campaign_id@].budget - amount) as u64,
                    ),
                )
                &&& final(self).providers_map() == ps.insert(
                    provider_id@,
                    with_earnings(
                        ps[provider_id@],
                        (ps[provider_id@].total_earnings + amount) as u64,
                    ),
                )
                &&& final(self).earnings_map() == es.insert(
                    ekey,
                    final(self).earnings_map()[ekey],
                )
                &&& (if es.contains_key(ekey) {
                    final(self).earnings_map()[ekey] == with_earned(
                        es[ekey],
                        (es[ekey].total_earned + amount) as u64,
                    )
                } else {
                    let e = final(self).earnings_map()[ekey];
                    &&& e.provider_id == *provider_id
                    &&& e.campaign_id == *campaign_id
                    &&& e.total_earned == amount
                    &&& e.last_withdrawal is None
                })
                &&& r matches Ok(s) && s@ == payment_receipt_seq(amount as nat, provider_id@)
            } else {
                let cs = old(self).campaigns_map();
                let ps = old(self).providers_map();
                &&& *final(self) == *old(self)
                &&& r matches Err(e) && {
                    &&& (e is CampaignNotFound <==> !cs.contains_key(campaign_id@))
                    &&& (e is Unauthorized <==> cs.contains_key(campaign_id@)
                        && cs[campaign_id@].owner@ != caller@)
                    &&& (e is InsufficientFunds <==> cs.contains_key(campaign_id@)
                        && cs[campaign_id@].owner@ == caller@
                        && cs[campaign_id@].budget < amount)
                    &&& (e is ProviderNotFound <==> cs.contains_key(campaign_id@)
                        && cs[campaign_id@].owner@ == caller@
                        && cs[campaign_id@].budget >= amount
                        && !ps.contains_key(provider_id@))
                }
            },
    {
        let (owner_ok, budget_ok) = match self.campaigns.get(campaign_id) {
            None => {
                return Err(LedgerError::CampaignNotFound);
            },
            Some(c) => (c.owner.same_as(caller), c.budget >= amount),
        };
        if !owner_ok {
            return Err(LedgerError::Unauthorized);
        }
        if !budget_ok {
            return Err(LedgerError::InsufficientFunds);
        }
        if !self.providers.contains(provider_id) {
            return Err(LedgerError::ProviderNotFound);
        }
        match self.campaigns.remove(campaign_id) {
            Some(mut c) => {
                c.budget = c.budget - amount;
                self.campaigns.save(campaign_id.clone(), c);
                proof {
                    crate::registry::lemma_insert_over_remove(
                        old(self).campaigns_map(),
                        campaign_id@,
                        self.campaigns_map()[campaign_id@],
                    );
                }
            },
            None => {
                // Unreachable: presence was established by the checks above.
                proof {
                    assert(false);
                }
            },
        }
        match self.providers.remove(provider_id) {
            Some(mut p) => {
                p.total_earnings = p.total_earnings + amount;
                self.providers.save(provider_id.clone(), p);
                proof {
                    crate::registry::lemma_insert_over_remove(
                        old(self).providers_map(),
                        provider_id@,
                        self.providers_map()[provider_id@],
                    );
                }
            },
            None => {
                // Unreachable: presence was established by the checks above.
                proof {
                    assert(false);
                }
            },
        }
        let ekey = earnings_key(provider_id, campaign_id);
        match self.earnings.remove(&ekey) {
            Some(mut e) => {
                e.total_earned = e.total_earned + amount;
                self.earnings.save(ekey, e);
            },
            None => {
                let record = ProviderEarnings {
                    provider_id: provider_id.clone(),
                    campaign_id: campaign_id.clone(),
                    total_earned: amount,
                    last_withdrawal: None,
                };
                self.earnings.save(ekey, record);
            },
        }
        proof {
            crate::registry::lemma_insert_over_remove(
                old(self).earnings_map(),
                earnings_key_seq(provider_id@, campaign_id@),
                self.earnings_map()[earnings_key_seq(provider_id@, campaign_id@)],
            );
        }
        Ok(payment_receipt(amount, provider_id))
    }

    /// First phase of withdrawing unused campaign funds: verifies that the
    /// campaign exists, that the caller owns it and that the budget covers
    /// the amount, then — unlike the other transfer operations — debits the
    /// budget speculatively before the transfer is attempted, and describes
    /// the transfer (custodial account to the caller's account).  A failed
    /// transfer must be followed by the compensating `finish` step.
    pub fn withdraw_campaign_funds_begin(
        &mut self,
        caller: &PrincipalId,
        campaign_id: &String,
        amount: u64,
    ) -> (r: Result<TransferRequest, LedgerError>)
        requires
            old(self).wf(),
        ensures
            final(self).wf(),
            final(self).providers == old(self).providers,
            final(self).earnings == old(self).earnings,
            final(self).campaign_counter == old(self).campaign_counter,
            final(self).provider_counter == old(self).provider_counter,
            ({
                let cs = old(self).campaigns_map();
                match r {
                    Ok(req) => {
                        &&& cs.contains_key(campaign_id@)
                        &&& cs[campaign_id@].owner@ == caller@
                        &&& cs[campaign_id@].budget >= amount
                        &&& final(self).campaigns_map() == cs.insert(
                            campaign_id@,
                            with_budget(
                                cs[campaign_id@],
                                (cs[campaign_id@].budget - amount) as u64,
                            ),
                        )
                        &&& req.to matches TransferDestination::Account(p) && p@ == caller@
                        &&& req.memo@ == campaign_withdrawal_memo_seq(campaign_id@)
                        &&& req.amount == amount
                        &&& req.fee == TRANSFER_FEE_E8S
                    },
                    Err(e) => {
                        &&& *final(self) == *old(self)
                        &&& (e is CampaignNotFound <==> !cs.contains_key(campaign_id@))
                        &&& (e is Unauthorized <==> cs.contains_key(campaign_id@)
                            && cs[campaign_id@].owner@ != caller@)
                        &&& (e is InsufficientFunds <==> cs.contains_key(campaign_id@)
                            && cs[campaign_id@].owner@ == caller@
                            && cs[campaign_id@].budget < amount)
                        &&& (e is CampaignNotFound || e is Unauthorized
                            || e is InsufficientFunds)
                    },
                }
            }),
    {
        match self.campaigns.get(campaign_id) {
            None => {
                return Err(LedgerError::CampaignNotFound);
            },
            Some(c) => {
                if !c.owner.same_as(caller) {
                    return Err(LedgerError::Unauthorized);
                }
                if c.budget < amount {
                    return Err(LedgerError::InsufficientFunds);
                }
            },
        }
        match self.campaigns.remove(campaign_id) {
            Some(mut c) => {
                c.budget = c.budget - amount;
                self.campaigns.save(campaign_id.clone(), c);
                proof {
                    crate::registry::lemma_insert_over_remove(
                        old(self).campaigns_map(),
                        campaign_id@,
                        self.campaigns_map()[campaign_id@],
                    );
                }
            },
            None => {
                // Unreachable: presence was established by the checks above.
                proof {
                    assert(false);
                }
            },
        }
        Ok(
            TransferRequest {
                to: TransferDestination::Account(caller.clone()),
                memo: campaign_withdrawal_memo(campaign_id),
                amount,
                fee: TRANSFER_FEE_E8S,
            },
        )
    }

    /// Second phase of withdrawing campaign funds.  A completed transfer
    /// leaves the speculative debit standing; a failed transfer is
    /// compensated by crediting the same amount back to the same budget
    /// (skipped if the campaign vanished while the call was in flight).
    pub fn withdraw_campaign_funds_finish(
        &mut self,
        campaign_id: &String,
        amount: u64,
        outcome: TransferOutcome,
    ) -> (r: Result<String, LedgerError>)
        requires
            old(self).wf(),
            outcome is Failed && old(self).campaigns_map().contains_key(campaign_id@)
                ==> old(self).campaigns_map()[campaign_id@].budget + amount <= u64::MAX,
        ensures
            final(self).wf(),
            final(self).providers == old(self).providers,
            final(self).earnings == old(self).earnings,
            final(self).campaign_counter == old(self).campaign_counter,
            final(self).provider_counter == old(self).provider_counter,
            match outcome {
                TransferOutcome::Completed(block_index) => {
                    &&& *final(self) == *old(self)
                    &&& r matches Ok(s) && s@ == campaign_withdrawal_receipt_seq(
                        block_index as nat,
                    )
                },
                TransferOutcome::Failed(text) => {
                    &&& (if old(self).campaigns_map().contains_key(campaign_id@) {
                        final(self).campaigns_map() == old(self).campaigns_map().insert(
                            campaign_id@,
                            with_budget(
                                old(self).campaigns_map()[campaign_id@],
                                (old(self).campaigns_map()[campaign_id@].budget + amount) as u64,
                            ),
                        )
                    } else {
                        final(self).campaigns == old(self).campaigns
                    })
                    &&& r matches Err(LedgerError::TransferFailed(t)) && t == text
                },
            },
    {
        match outcome {
            TransferOutcome::Completed(block_index) => Ok(
                campaign_withdrawal_receipt(block_index),
            ),
            TransferOutcome::Failed(text) => {
                match self.campaigns.remove(campaign_id) {
                    Some(mut c) => {
                        c.budget = c.budget + amount;
                        self.campaigns.save(campaign_id.clone(), c);
                        proof {
                            crate::registry::lemma_insert_over_remove(
                                old(self).campaigns_map(),
                                campaign_id@,
                                final(self).campaigns_map()[campaign_id@],
                            );
                        }
                    },
                    None => {},
                }
                Err(LedgerError::TransferFailed(text))
            },
        }
    }

    /// Closes a campaign: verifies ownership, then removes the record
    /// unconditionally.  Any remaining budget is abandoned — there is no
    /// check that it is zero and no transfer back to the owner.
    pub fn close_campaign(&mut self, caller: &PrincipalId, campaign_id: &String) -> (r: Result<
        (),
        LedgerError,
    >)
        requires
            old(self).wf(),
        ensures
            final(self).wf(),
            final(self).providers == old(self).providers,
            final(self).earnings == old(self).earnings,
            final(self).campaign_counter == old(self).campaign_counter,
            final(self).provider_counter == old(self).provider_counter,
            ({
                let cs = old(self).campaigns_map();
                match r {
                    Ok(_) => {
                        &&& cs.contains_key(campaign_id@)
                        &&& cs[campaign_id@].owner@ == caller@
                        &&& final(self).campaigns_map() == cs.remove(campaign_id@)
                    },
                    Err(e) => {
                        &&& *final(self) == *old(self)
                        &&& (e is CampaignNotFound <==> !cs.contains_key(campaign_id@))
                        &&& (e is Unauthorized <==> cs.contains_key(campaign_id@)
                            && cs[campaign_id@].owner@ != caller@)
                        &&& (e is CampaignNotFound || e is Unauthorized)
                    },
                }
            }),
    {
        match self.campaigns.get(campaign_id) {
            None => {
                return Err(LedgerError::CampaignNotFound);
            },
            Some(c) => {
                if !c.owner.same_as(caller) {
                    return Err(LedgerError::Unauthorized);
                }
            },
        }
        let _ = self.campaigns.remove(campaign_id);
        Ok(())
    }

    /// Owner-only read of a provider's aggregate earnings.
    pub fn get_provider_earnings(&self, caller: &PrincipalId, provider_id: &String) -> (r: Result<
        u64,
        LedgerError,
    >)
        requires
            self.wf(),
        ensures
            ({
                let ps = self.providers_map();
                match r {
                    Ok(v) => {
                        &&& ps.contains_key(provider_id@)
                        &&& ps[provider_id@].owner@ == caller@
                        &&& v == ps[provider_id@].total_earnings
                    },
                    Err(e) => {
                        &&& (e is ProviderNotFound <==> !ps.contains_key(provider_id@))
                        &&& (e is Unauthorized <==> ps.contains_key(provider_id@)
                            && ps[provider_id@].owner@ != caller@)
                        &&& (e is ProviderNotFound || e is Unauthorized)
                    },
                }
            }),
    {
        match self.providers.get(provider_id) {
            None => Err(LedgerError::ProviderNotFound),
            Some(p) => {
                if !p.owner.same_as(caller) {
                    Err(LedgerError::Unauthorized)
                } else {
                    Ok(p.total_earnings)
                }
            },
        }
    }

    /// Owner-only read of a campaign's current budget.
    pub fn get_campaign_balance(&self, caller: &PrincipalId, campaign_id: &String) -> (r: Result<
        u64,
        LedgerError,
    >)
        requires
            self.wf(),
        ensures
            ({
                let cs = self.campaigns_map();
                match r {
                    Ok(v) => {
                        &&& cs.contains_key(campaign_id@)
                        &&& cs[campaign_id@].owner@ == caller@
                        &&& v == cs[campaign_id@].budget
                    },
                    Err(e) => {
                        &&& (e is CampaignNotFound <==> !cs.contains_key(campaign_id@))
                        &&& (e is Unauthorized <==> cs.contains_key(campaign_id@)
                            && cs[campaign_id@].owner@ != caller@)
                        &&& (e is CampaignNotFound || e is Unauthorized)
                    },
                }
            }),
    {
        match self.campaigns.get(campaign_id) {
            None => Err(LedgerError::CampaignNotFound),
            Some(c) => {
                if !c.owner.same_as(caller) {
                    Err(LedgerError::Unauthorized)
                } else {
                    Ok(c.budget)
                }
            },
        }
    }

    /// Owner-only read of a provider's per-campaign earnings records: a
    /// linear scan of the earnings registry filtered by provider.
    pub fn get_provider_earnings_breakdown(
        &self,
        caller: &PrincipalId,
        provider_id: &String,
    ) -> (r: Result<Vec<ProviderEarnings>, LedgerError>)
        requires
            self.wf(),
        ensures
            ({
                let ps = self.providers_map();
                match r {
                    Ok(v) => {
                        &&& ps.contains_key(provider_id@)
                        &&& ps[provider_id@].owner@ == caller@
                        &&& v@ == self.earnings.values().filter(earnings_for(provider_id@))
                    },
                    Err(e) => {
                        &&& (e is ProviderNotFound <==> !ps.contains_key(provider_id@))
                        &&& (e is Unauthorized <==> ps.contains_key(provider_id@)
                            && ps[provider_id@].owner@ != caller@)
                        &&& (e is ProviderNotFound || e is Unauthorized)
                    },
                }
            }),
    {
        match self.providers.get(provider_id) {
            None => {
                return Err(LedgerError::ProviderNotFound);
            },
            Some(p) => {
                if !p.owner.same_as(caller) {
                    return Err(LedgerError::Unauthorized);
                }
            },
        }
        let mut out: Vec<ProviderEarnings> = Vec::new();
        let n = self.earnings.count();
        let mut i: usize = 0;
        while i < n
            invariant
                n == self.earnings.values().len(),
                i <= n,
                out@ == self.earnings.values().take(i as int).filter(earnings_for(provider_id@)),
            decreases n - i,
        {
            let e = self.earnings.value_at(i);
            if e.provider_id == *provider_id {
                out.push(e.clone());
            }
            proof {
                let vs = self.earnings.values();
                vs.lemma_take_succ_push(i as int);
                vs.take(i as int).lemma_filter_push(vs[i as int], earnings_for(provider_id@));
            }
            i += 1;
        }
        proof {
            assert(self.earnings.values().take(n as int) =~= self.earnings.values());
        }
        Ok(out)
    }

    /// Placeholder for associating a provider with a campaign: only the
    /// authorization check is performed; no association is recorded.
    pub fn add_provider(
        &self,
        caller: &PrincipalId,
        campaign_id: &String,
        _provider_id: &String,
    ) -> (r: Result<(), LedgerError>)
        requires
            self.wf(),
        ensures
            ({
                let cs = self.campaigns_map();
                match r {
                    Ok(_) => cs.contains_key(campaign_id@) && cs[campaign_id@].owner@ == caller@,
                    Err(e) => {
                        &&& (e is CampaignNotFound <==> !cs.contains_key(campaign_id@))
                        &&& (e is Unauthorized <==> cs.contains_key(campaign_id@)
                            && cs[campaign_id@].owner@ != caller@)
                        &&& (e is CampaignNotFound || e is Unauthorized)
                    },
                }
            }),
    {
        match self.campaigns.get(campaign_id) {
            None => Err(LedgerError::CampaignNotFound),
            Some(c) => {
                if !c.owner.same_as(caller) {
                    Err(LedgerError::Unauthorized)
                } else {
                    Ok(())
                }
            },
        }
    }

    /// Placeholder for dissolving a provider association, with the same
    /// authorization-only behavior as `add_provider`.
    pub fn remove_provider(
        &self,
        caller: &PrincipalId,
        campaign_id: &String,
        _provider_id: &String,
    ) -> (r: Result<(), LedgerError>)
        requires
            self.wf(),
        ensures
            ({
                let cs = self.campaigns_map();
                match r {
                    Ok(_) => cs.contains_key(campaign_id@) && cs[campaign_id@].owner@ == caller@,
                    Err(e) => {
                        &&& (e is CampaignNotFound <==> !cs.contains_key(campaign_id@))
                        &&& (e is Unauthorized <==> cs.contains_key(campaign_id@)
                            && cs[campaign_id@].owner@ != caller@)
                        &&& (e is CampaignNotFound || e is Unauthorized)
                    },
                }
            }),
    {
        match self.campaigns.get(campaign_id) {
            None => Err(LedgerError::CampaignNotFound),
            Some(c) => {
                if !c.owner.same_as(caller) {
                    Err(LedgerError::Unauthorized)
                } else {
                    Ok(())
                }
            },
        }
    }

    /// The campaigns the caller owns, in storage order.
    pub fn get_my_campaigns(&self, caller: &PrincipalId) -> (r: Vec<Campaign>)
        ensures
            ({
                let f = self.campaigns.values().filter(owned_campaign(caller@));
                &&& r@.len() == f.len()
                &&& forall|i: int| 0 <= i < f.len() ==> campaign_like(r@[i], f[i])
            }),
    {
        let mut out: Vec<Campaign> = Vec::new();
        let n = self.campaigns.count();
        let mut i: usize = 0;
        while i < n
            invariant
                n == self.campaigns.values().len(),
                i <= n,
                ({
                    let f = self.campaigns.values().take(i as int).filter(
                        owned_campaign(caller@),
                    );
                    &&& out@.len() == f.len()
                    &&& forall|j: int| 0 <= j < f.len() ==> campaign_like(out@[j], f[j])
                }),
            decreases n - i,
        {
            let c = self.campaigns.value_at(i);
            if c.owner.same_as(caller) {
                out.push(c.clone());
            }
            proof {
                let vs = self.campaigns.values();
                vs.lemma_take_succ_push(i as int);
                vs.take(i as int).lemma_filter_push(vs[i as int], owned_campaign(caller@));
            }
            i += 1;
        }
        proof {
            assert(self.campaigns.values().take(n as int) =~= self.campaigns.values());
        }
        out
    }

    /// The providers the caller owns, in storage order.
    pub fn get_my_providers(&self, caller: &PrincipalId) -> (r: Vec<Provider>)
        ensures
            ({
                let f = self.providers.values().filter(owned_provider(caller@));
                &&& r@.len() == f.len()
                &&& forall|i: int| 0 <= i < f.len() ==> provider_like(r@[i], f[i])
            }),
    {
        let mut out: Vec<Provider> = Vec::new();
        let n = self.providers.count();
        let mut i: usize = 0;
        while i < n
            invariant
                n == self.providers.values().len(),
                i <= n,
                ({
                    let f = self.providers.values().take(i as int).filter(
                        owned_provider(caller@),
                    );
                    &&& out@.len() == f.len()
                    &&& forall|j: int| 0 <= j < f.len() ==> provider_like(out@[j], f[j])
                }),
            decreases n - i,
        {
            let p = self.providers.value_at(i);
            if p.owner.same_as(caller) {
                out.push(p.clone());
            }
            proof {
                let vs = self.providers.values();
                vs.lemma_take_succ_push(i as int);
                vs.take(i as int).lemma_filter_push(vs[i as int], owned_provider(caller@));
            }
            i += 1;
        }
        proof {
            assert(self.providers.values().take(n as int) =~= self.providers.values());
        }
        out
    }

    /// Every registered provider: the open marketplace discovery read.
    pub fn get_all_providers(&self) -> (r: Vec<Provider>)
        ensures
            r@.len() == self.providers.values().len(),
            forall|i: int|
                0 <= i < r@.len() ==> provider_like(r@[i], self.providers.values()[i]),
    {
        let mut out: Vec<Provider> = Vec::new();
        let n = self.providers.count();
        let mut i: usize = 0;
        while i < n
            invariant
                n == self.providers.values().len(),
                i <= n,
                out@.len() == i,
                forall|j: int| 0 <= j < i ==> provider_like(out@[j], self.providers.values()[j]),
            decreases n - i,
        {
            let p = self.providers.value_at(i);
            out.push(p.clone());
            i += 1;
        }
        out
    }

    /// Every location of every registered provider, in storage order.
    pub fn get_all_locations(&self) -> (r: Vec<Location>)
        ensures
            r@ == self.providers.values().flat_map(locations_of()),
    {
        let mut out: Vec<Location> = Vec::new();
        let n = self.providers.count();
        let mut i: usize = 0;
        while i < n
            invariant
                n == self.providers.values().len(),
                i <= n,
                out@ == self.providers.values().take(i as int).flat_map(locations_of()),
            decreases n - i,
        {
            let p = self.providers.value_at(i);
            let mut locs = clone_locations(&p.locations);
            out.append(&mut locs);
            proof {
                let vs = self.providers.values();
                vs.lemma_flat_map_take_append(locations_of(), i as int);
            }
            i += 1;
        }
        proof {
            assert(self.providers.values().take(n as int) =~= self.providers.values());
        }
        out
    }

    /// The providers associated with a campaign.  Association bookkeeping
    /// is an unimplemented placeholder: an authorized call gets an empty
    /// list.
    pub fn get_providers_for_campaign(
        &self,
        caller: &PrincipalId,
        campaign_id: &String,
    ) -> (r: Result<Vec<Provider>, LedgerError>)
        requires
            self.wf(),
        ensures
            ({
                let cs = self.campaigns_map();
                match r {
                    Ok(v) => {
                        &&& cs.contains_key(campaign_id@)
                        &&& cs[campaign_id@].owner@ == caller@
                        &&& v@.len() == 0
                    },
                    Err(e) => {
                        &&& (e is CampaignNotFound <==> !cs.contains_key(campaign_id@))
                        &&& (e is Unauthorized <==> cs.contains_key(campaign_id@)
                            && cs[campaign_id@].owner@ != caller@)
                        &&& (e is CampaignNotFound || e is Unauthorized)
                    },
                }
            }),
    {
        match self.campaigns.get(campaign_id) {
            None => Err(LedgerError::CampaignNotFound),
            Some(c) => {
                if !c.owner.same_as(caller) {
                    Err(LedgerError::Unauthorized)
                } else {
                    Ok(Vec::new())
                }
            },
        }
    }
}

/// Selects the campaigns a given identity owns.
pub open spec fn owned_campaign(caller: Seq<u8>) -> spec_fn(Campaign) -> bool {
    |c: Campaign| c.owner@ == caller
}

/// Selects the providers a given identity owns.
pub open spec fn owned_provider(caller: Seq<u8>) -> spec_fn(Provider) -> bool {
    |p: Provider| p.owner@ == caller
}

/// Selects the earnings records of a given provider.
pub open spec fn earnings_for(provider_id: Seq<char>) -> spec_fn(ProviderEarnings) -> bool {
    |e: ProviderEarnings| e.provider_id@ == provider_id
}

/// Projects a provider to its locations.
pub open spec fn locations_of() -> spec_fn(Provider) -> Seq<Location> {
    |p: Provider| p.locations@
}

} // verus!
