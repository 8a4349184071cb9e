//! Operation-level behavior: authorization, error taxonomy, transfer
//! requests, receipts, and the query surface.

use soulboard::ledger::Ledger;
use soulboard::model::{
    LedgerError, Location, LocationStatus, PrincipalId, TransferDestination, TransferOutcome,
    TRANSFER_FEE_E8S,
};

fn principal(tag: u8) -> PrincipalId {
    PrincipalId { bytes: vec![tag, tag, tag] }
}

fn location(id: &str, fee: u64) -> Location {
    Location {
        id: id.to_string(),
        name: format!("location {id}"),
        image: "img".to_string(),
        base_fees: fee,
        views: 0,
        status: LocationStatus::Active,
    }
}

fn campaign_for(ledger: &mut Ledger, owner: &PrincipalId, budget: u64) -> String {
    ledger
        .create_campaign(
            owner,
            "ads".to_string(),
            "a campaign".to_string(),
            None,
            None,
            budget,
        )
        .unwrap()
}

fn provider_for(ledger: &mut Ledger, owner: &PrincipalId) -> String {
    ledger
        .register_provider(owner, "screens".to_string(), Vec::new())
        .unwrap()
}

#[test]
fn register_provider_starts_with_zero_earnings() {
    let mut ledger = Ledger::new();
    let alice = principal(1);
    let pid = provider_for(&mut ledger, &alice);
    assert_eq!(ledger.get_provider_earnings(&alice, &pid).unwrap(), 0);
}

#[test]
fn create_campaign_records_the_declared_budget() {
    let mut ledger = Ledger::new();
    let alice = principal(1);
    let cid = campaign_for(&mut ledger, &alice, 25);
    assert_eq!(ledger.get_campaign_balance(&alice, &cid).unwrap(), 25);
}

#[test]
fn owner_reads_are_refused_to_strangers() {
    let mut ledger = Ledger::new();
    let alice = principal(1);
    let bob = principal(2);
    let cid = campaign_for(&mut ledger, &alice, 25);
    let pid = provider_for(&mut ledger, &alice);
    assert!(matches!(
        ledger.get_campaign_balance(&bob, &cid),
        Err(LedgerError::Unauthorized)
    ));
    assert!(matches!(
        ledger.get_provider_earnings(&bob, &pid),
        Err(LedgerError::Unauthorized)
    ));
    assert!(matches!(
        ledger.get_provider_earnings_breakdown(&bob, &pid),
        Err(LedgerError::Unauthorized)
    ));
}

#[test]
fn unknown_ids_yield_not_found() {
    let mut ledger = Ledger::new();
    let alice = principal(1);
    let ghost_campaign = "campaign_9".to_string();
    let ghost_provider = "provider_9".to_string();
    assert!(matches!(
        ledger.get_campaign_balance(&alice, &ghost_campaign),
        Err(LedgerError::CampaignNotFound)
    ));
    assert!(matches!(
        ledger.get_provider_earnings(&alice, &ghost_provider),
        Err(LedgerError::ProviderNotFound)
    ));
    assert!(matches!(
        ledger.fund_campaign_begin(&alice, &ghost_campaign, 5),
        Err(LedgerError::CampaignNotFound)
    ));
    assert!(matches!(
        ledger.withdraw_provider_earnings_begin(&alice, &ghost_provider, 5),
        Err(LedgerError::ProviderNotFound)
    ));
    assert!(matches!(
        ledger.close_campaign(&alice, &ghost_campaign),
        Err(LedgerError::CampaignNotFound)
    ));
}

#[test]
fn fund_campaign_describes_the_transfer_into_custody() {
    let mut ledger = Ledger::new();
    let alice = principal(1);
    let cid = campaign_for(&mut ledger, &alice, 0);
    let req = ledger.fund_campaign_begin(&alice, &cid, 75).unwrap();
    assert!(matches!(req.to, TransferDestination::Custodial));
    assert_eq!(req.memo, "Fund campaign: campaign_1");
    assert_eq!(req.amount, 75);
    assert_eq!(req.fee, TRANSFER_FEE_E8S);
    assert_eq!(req.fee, 10_000);
}

#[test]
fn fund_campaign_commit_credits_exactly_the_amount() {
    let mut ledger = Ledger::new();
    let alice = principal(1);
    let cid = campaign_for(&mut ledger, &alice, 10);
    ledger.fund_campaign_begin(&alice, &cid, 90).unwrap();
    let receipt = ledger
        .fund_campaign_finish(&cid, 90, TransferOutcome::Completed(41))
        .unwrap();
    assert_eq!(receipt, "Campaign funded successfully. Transfer block index: 41");
    assert_eq!(ledger.get_campaign_balance(&alice, &cid).unwrap(), 100);
}

#[test]
fn fund_campaign_failure_leaves_the_budget_untouched() {
    let mut ledger = Ledger::new();
    let alice = principal(1);
    let cid = campaign_for(&mut ledger, &alice, 10);
    ledger.fund_campaign_begin(&alice, &cid, 90).unwrap();
    let r = ledger.fund_campaign_finish(
        &cid,
        90,
        TransferOutcome::Failed("gateway unreachable".to_string()),
    );
    match r {
        Err(LedgerError::TransferFailed(text)) => assert_eq!(text, "gateway unreachable"),
        _ => panic!("expected a transfer failure"),
    }
    assert_eq!(ledger.get_campaign_balance(&alice, &cid).unwrap(), 10);
}

#[test]
fn fund_campaign_is_refused_to_strangers_without_state_change() {
    let mut ledger = Ledger::new();
    let alice = principal(1);
    let bob = principal(2);
    let cid = campaign_for(&mut ledger, &alice, 10);
    assert!(matches!(
        ledger.fund_campaign_begin(&bob, &cid, 90),
        Err(LedgerError::Unauthorized)
    ));
    assert_eq!(ledger.get_campaign_balance(&alice, &cid).unwrap(), 10);
}

#[test]
fn pay_provider_moves_all_three_balances_together() {
    let mut ledger = Ledger::new();
    let alice = principal(1);
    let carol = principal(3);
    let cid = campaign_for(&mut ledger, &alice, 100);
    let pid = provider_for(&mut ledger, &carol);
    let receipt = ledger.pay_provider(&alice, &cid, &pid, 30).unwrap();
    assert_eq!(receipt, "Payment of 30 tokens made to provider provider_1");
    assert_eq!(ledger.get_campaign_balance(&alice, &cid).unwrap(), 70);
    assert_eq!(ledger.get_provider_earnings(&carol, &pid).unwrap(), 30);
    let breakdown = ledger.get_provider_earnings_breakdown(&carol, &pid).unwrap();
    assert_eq!(breakdown.len(), 1);
    assert_eq!(breakdown[0].provider_id, pid);
    assert_eq!(breakdown[0].campaign_id, cid);
    assert_eq!(breakdown[0].total_earned, 30);
    assert!(breakdown[0].last_withdrawal.is_none());
}

#[test]
fn pay_provider_accumulates_per_pair_records() {
    let mut ledger = Ledger::new();
    let alice = principal(1);
    let carol = principal(3);
    let cid_a = campaign_for(&mut ledger, &alice, 100);
    let cid_b = campaign_for(&mut ledger, &alice, 100);
    let pid = provider_for(&mut ledger, &carol);
    ledger.pay_provider(&alice, &cid_a, &pid, 10).unwrap();
    ledger.pay_provider(&alice, &cid_a, &pid, 15).unwrap();
    ledger.pay_provider(&alice, &cid_b, &pid, 7).unwrap();
    assert_eq!(ledger.get_provider_earnings(&carol, &pid).unwrap(), 32);
    let mut breakdown = ledger.get_provider_earnings_breakdown(&carol, &pid).unwrap();
    breakdown.sort_by(|a, b| a.campaign_id.cmp(&b.campaign_id));
    assert_eq!(breakdown.len(), 2);
    assert_eq!(breakdown[0].campaign_id, cid_a);
    assert_eq!(breakdown[0].total_earned, 25);
    assert_eq!(breakdown[1].campaign_id, cid_b);
    assert_eq!(breakdown[1].total_earned, 7);
}

#[test]
fn pay_provider_error_cases_leave_everything_unchanged() {
    let mut ledger = Ledger::new();
    let alice = principal(1);
    let bob = principal(2);
    let carol = principal(3);
    let cid = campaign_for(&mut ledger, &alice, 20);
    let pid = provider_for(&mut ledger, &carol);
    let ghost_provider = "provider_9".to_string();
    assert!(matches!(
        ledger.pay_provider(&bob, &cid, &pid, 10),
        Err(LedgerError::Unauthorized)
    ));
    assert!(matches!(
        ledger.pay_provider(&alice, &cid, &pid, 21),
        Err(LedgerError::InsufficientFunds)
    ));
    assert!(matches!(
        ledger.pay_provider(&alice, &cid, &ghost_provider, 10),
        Err(LedgerError::ProviderNotFound)
    ));
    assert_eq!(ledger.get_campaign_balance(&alice, &cid).unwrap(), 20);
    assert_eq!(ledger.get_provider_earnings(&carol, &pid).unwrap(), 0);
    assert_eq!(
        ledger.get_provider_earnings_breakdown(&carol, &pid).unwrap().len(),
        0
    );
}

#[test]
fn provider_withdrawal_debits_only_the_aggregate() {
    let mut ledger = Ledger::new();
    let alice = principal(1);
    let carol = principal(3);
    let cid = campaign_for(&mut ledger, &alice, 100);
    let pid = provider_for(&mut ledger, &carol);
    ledger.pay_provider(&alice, &cid, &pid, 60).unwrap();
    let req = ledger
        .withdraw_provider_earnings_begin(&carol, &pid, 45)
        .unwrap();
    match &req.to {
        TransferDestination::Account(p) => assert_eq!(p.bytes, carol.bytes),
        _ => panic!("withdrawal must pay out to the caller's account"),
    }
    assert_eq!(req.memo, "Provider withdrawal: provider_1");
    let receipt = ledger
        .withdraw_provider_earnings_finish(&pid, 45, TransferOutcome::Completed(7))
        .unwrap();
    assert_eq!(receipt, "Withdrawal successful. Transfer block index: 7");
    assert_eq!(ledger.get_provider_earnings(&carol, &pid).unwrap(), 15);
    // The per-campaign record keeps the lifetime gross figure.
    let breakdown = ledger.get_provider_earnings_breakdown(&carol, &pid).unwrap();
    assert_eq!(breakdown[0].total_earned, 60);
}

#[test]
fn provider_withdrawal_is_bounded_by_the_accumulated_earnings() {
    let mut ledger = Ledger::new();
    let alice = principal(1);
    let carol = principal(3);
    let cid = campaign_for(&mut ledger, &alice, 100);
    let pid = provider_for(&mut ledger, &carol);
    ledger.pay_provider(&alice, &cid, &pid, 10).unwrap();
    assert!(matches!(
        ledger.withdraw_provider_earnings_begin(&carol, &pid, 11),
        Err(LedgerError::InsufficientFunds)
    ));
    assert!(matches!(
        ledger.withdraw_provider_earnings_begin(&alice, &pid, 5),
        Err(LedgerError::Unauthorized)
    ));
    assert_eq!(ledger.get_provider_earnings(&carol, &pid).unwrap(), 10);
}

#[test]
fn provider_withdrawal_failure_keeps_the_earnings() {
    let mut ledger = Ledger::new();
    let alice = principal(1);
    let carol = principal(3);
    let cid = campaign_for(&mut ledger, &alice, 100);
    let pid = provider_for(&mut ledger, &carol);
    ledger.pay_provider(&alice, &cid, &pid, 60).unwrap();
    ledger
        .withdraw_provider_earnings_begin(&carol, &pid, 60)
        .unwrap();
    let r = ledger.withdraw_provider_earnings_finish(
        &pid,
        60,
        TransferOutcome::Failed("ledger refused".to_string()),
    );
    assert!(matches!(r, Err(LedgerError::TransferFailed(_))));
    assert_eq!(ledger.get_provider_earnings(&carol, &pid).unwrap(), 60);
}

#[test]
fn campaign_withdrawal_debits_before_the_transfer() {
    let mut ledger = Ledger::new();
    let alice = principal(1);
    let cid = campaign_for(&mut ledger, &alice, 50);
    let req = ledger
        .withdraw_campaign_funds_begin(&alice, &cid, 30)
        .unwrap();
    assert_eq!(req.memo, "Campaign withdrawal: campaign_1");
    assert_eq!(req.amount, 30);
    // The debit is already visible between the two phases.
    assert_eq!(ledger.get_campaign_balance(&alice, &cid).unwrap(), 20);
    let receipt = ledger
        .withdraw_campaign_funds_finish(&cid, 30, TransferOutcome::Completed(9))
        .unwrap();
    assert_eq!(
        receipt,
        "Campaign funds withdrawal successful. Transfer block index: 9"
    );
    assert_eq!(ledger.get_campaign_balance(&alice, &cid).unwrap(), 20);
}

#[test]
fn campaign_withdrawal_requires_ownership_and_funds() {
    let mut ledger = Ledger::new();
    let alice = principal(1);
    let bob = principal(2);
    let cid = campaign_for(&mut ledger, &alice, 50);
    assert!(matches!(
        ledger.withdraw_campaign_funds_begin(&bob, &cid, 10),
        Err(LedgerError::Unauthorized)
    ));
    assert!(matches!(
        ledger.withdraw_campaign_funds_begin(&alice, &cid, 51),
        Err(LedgerError::InsufficientFunds)
    ));
    assert_eq!(ledger.get_campaign_balance(&alice, &cid).unwrap(), 50);
}

#[test]
fn close_campaign_removes_it_and_abandons_the_budget() {
    let mut ledger = Ledger::new();
    let alice = principal(1);
    let bob = principal(2);
    let cid = campaign_for(&mut ledger, &alice, 40);
    assert!(matches!(
        ledger.close_campaign(&bob, &cid),
        Err(LedgerError::Unauthorized)
    ));
    assert_eq!(ledger.get_campaign_balance(&alice, &cid).unwrap(), 40);
    ledger.close_campaign(&alice, &cid).unwrap();
    assert!(matches!(
        ledger.get_campaign_balance(&alice, &cid),
        Err(LedgerError::CampaignNotFound)
    ));
}

#[test]
fn my_campaigns_and_providers_are_filtered_by_owner() {
    let mut ledger = Ledger::new();
    let alice = principal(1);
    let bob = principal(2);
    let cid_a = campaign_for(&mut ledger, &alice, 1);
    let _cid_b = campaign_for(&mut ledger, &bob, 2);
    let pid_a = provider_for(&mut ledger, &alice);
    let _pid_b = provider_for(&mut ledger, &bob);
    let mine = ledger.get_my_campaigns(&alice);
    assert_eq!(mine.len(), 1);
    assert_eq!(mine[0].id, cid_a);
    assert_eq!(mine[0].budget, 1);
    let my_providers = ledger.get_my_providers(&alice);
    assert_eq!(my_providers.len(), 1);
    assert_eq!(my_providers[0].id, pid_a);
    assert_eq!(ledger.get_all_providers().len(), 2);
}

#[test]
fn all_locations_are_open_marketplace_data() {
    let mut ledger = Ledger::new();
    let alice = principal(1);
    let bob = principal(2);
    ledger
        .register_provider(
            &alice,
            "north".to_string(),
            vec![location("loc_a", 5), location("loc_b", 6)],
        )
        .unwrap();
    ledger
        .register_provider(&bob, "south".to_string(), vec![location("loc_c", 7)])
        .unwrap();
    let locations = ledger.get_all_locations();
    assert_eq!(locations.len(), 3);
    let ids: Vec<&str> = locations.iter().map(|l| l.id.as_str()).collect();
    assert_eq!(ids, vec!["loc_a", "loc_b", "loc_c"]);
}

#[test]
fn provider_association_is_authorization_checked_placeholder() {
    let mut ledger = Ledger::new();
    let alice = principal(1);
    let bob = principal(2);
    let cid = campaign_for(&mut ledger, &alice, 0);
    let pid = provider_for(&mut ledger, &alice);
    ledger.add_provider(&alice, &cid, &pid).unwrap();
    ledger.remove_provider(&alice, &cid, &pid).unwrap();
    assert!(matches!(
        ledger.add_provider(&bob, &cid, &pid),
        Err(LedgerError::Unauthorized)
    ));
    assert!(matches!(
        ledger.remove_provider(&bob, &cid, &pid),
        Err(LedgerError::Unauthorized)
    ));
    let providers = ledger.get_providers_for_campaign(&alice, &cid).unwrap();
    assert_eq!(providers.len(), 0);
}
