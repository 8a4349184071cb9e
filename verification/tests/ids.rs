//! Identifier generation: formatting, sequencing, and independence of the
//! two counters.

use soulboard::ledger::Ledger;

fn principal(tag: u8) -> soulboard::model::PrincipalId {
    soulboard::model::PrincipalId { bytes: vec![tag, tag, tag] }
}

#[test]
fn campaign_ids_count_up_from_one() {
    let mut ledger = Ledger::new();
    assert_eq!(ledger.generate_campaign_id(), "campaign_1");
    assert_eq!(ledger.generate_campaign_id(), "campaign_2");
    assert_eq!(ledger.generate_campaign_id(), "campaign_3");
}

#[test]
fn provider_ids_count_up_from_one() {
    let mut ledger = Ledger::new();
    assert_eq!(ledger.generate_provider_id(), "provider_1");
    assert_eq!(ledger.generate_provider_id(), "provider_2");
}

#[test]
fn the_two_counters_are_independent() {
    let mut ledger = Ledger::new();
    assert_eq!(ledger.generate_campaign_id(), "campaign_1");
    assert_eq!(ledger.generate_provider_id(), "provider_1");
    assert_eq!(ledger.generate_campaign_id(), "campaign_2");
    assert_eq!(ledger.generate_provider_id(), "provider_2");
}

#[test]
fn multi_digit_counters_render_in_decimal() {
    let mut ledger = Ledger::new();
    for _ in 0..11 {
        ledger.generate_campaign_id();
    }
    assert_eq!(ledger.generate_campaign_id(), "campaign_12");
}

#[test]
fn created_entities_use_the_generated_ids() {
    let mut ledger = Ledger::new();
    let alice = principal(1);
    let cid = ledger
        .create_campaign(&alice, "ads".to_string(), "d".to_string(), None, None, 0)
        .unwrap();
    assert_eq!(cid, "campaign_1");
    let pid = ledger
        .register_provider(&alice, "screens".to_string(), Vec::new())
        .unwrap();
    assert_eq!(pid, "provider_1");
    let cid2 = ledger
        .create_campaign(&alice, "more ads".to_string(), "d".to_string(), None, None, 0)
        .unwrap();
    assert_eq!(cid2, "campaign_2");
}
