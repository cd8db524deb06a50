use plant_telemetry::audit::{
    compute_signature, create_entry_signature, genesis_signature, verify_chain, verify_entries,
    AuditChain,
};
use plant_telemetry::models::NewLogEntry;

use sha2::{Digest, Sha256};

fn entry(kind: &str, source: &str, message: &str, equipment_id: Option<&str>) -> NewLogEntry {
    NewLogEntry {
        kind: kind.to_string(),
        source: source.to_string(),
        message: message.to_string(),
        equipment_id: equipment_id.map(|e| e.to_string()),
    }
}

fn reference_signature(payload: &str) -> String {
    hex::encode(Sha256::digest(payload.as_bytes()))
}

#[test]
fn first_append_signs_over_genesis_sentinel() {
    let mut chain = AuditChain::new();
    let ts = "2024-01-01T00:00:00Z";
    chain.append(entry("MANUAL", "opA", "start shift", None), ts.to_string());
    let expected = reference_signature(&format!("GENESIS|{}|MANUAL|opA|start shift|", ts));
    assert_eq!(chain.entries()[0].signature, expected);
}

#[test]
fn create_entry_signature_matches_reference_digest() {
    let e = entry("AUTO", "scada", "alarm raised", Some("EQ-7"));
    let got = create_entry_signature(&e, "2024-02-02T10:30:00Z", "abc123");
    let expected = reference_signature("abc123|2024-02-02T10:30:00Z|AUTO|scada|alarm raised|EQ-7");
    assert_eq!(got, expected);
}

#[test]
fn signature_is_64_lowercase_hex_characters() {
    let e = entry("MANUAL", "opB", "note", None);
    let sig = create_entry_signature(&e, "2024-01-01T00:00:00Z", "GENESIS");
    assert_eq!(sig.len(), 64);
    assert!(sig.chars().all(|c| c.is_ascii_hexdigit() && !c.is_ascii_uppercase()));
}

#[test]
fn replaying_the_chain_reproduces_every_signature() {
    let mut chain = AuditChain::new();
    chain.append(entry("MANUAL", "opA", "start shift", None), "t1".to_string());
    chain.append(entry("AUTO", "scada", "value drift", Some("EQ-1")), "t2".to_string());
    chain.append(entry("DOCUMENT_ADDED", "opB", "photo", Some("EQ-2")), "t3".to_string());
    assert!(verify_chain(chain.entries()));
    assert_eq!(verify_entries(chain.entries()), None);
}

#[test]
fn each_signature_chains_on_the_previous_one() {
    let mut chain = AuditChain::new();
    chain.append(entry("MANUAL", "opA", "one", None), "t1".to_string());
    chain.append(entry("MANUAL", "opA", "two", None), "t2".to_string());
    let first_sig = chain.entries()[0].signature.clone();
    let second = &chain.entries()[1];
    let recomputed = compute_signature(
        &first_sig,
        &second.timestamp,
        &second.kind,
        &second.source,
        &second.message,
        &second.equipment_id,
    );
    assert_eq!(second.signature, recomputed);
}

#[test]
fn corrupting_a_historical_message_is_detected() {
    let mut chain = AuditChain::new();
    chain.append(entry("MANUAL", "opA", "start shift", None), "t1".to_string());
    chain.append(entry("AUTO", "scada", "value drift", Some("EQ-1")), "t2".to_string());
    chain.append(entry("MANUAL", "opB", "end shift", None), "t3".to_string());

    let mut tampered = chain.entries().clone();
    tampered[1].message = "value steady".to_string();
    assert_eq!(verify_entries(&tampered), Some(1));
    assert!(!verify_chain(&tampered));
}

#[test]
fn corrupting_the_first_message_invalidates_from_the_start() {
    let mut chain = AuditChain::new();
    chain.append(entry("MANUAL", "opA", "start shift", None), "t1".to_string());
    chain.append(entry("MANUAL", "opA", "note", None), "t2".to_string());

    let mut tampered = chain.entries().clone();
    tampered[0].message = "never happened".to_string();
    assert_eq!(verify_entries(&tampered), Some(0));
}

#[test]
fn previous_signature_references_are_pairwise_distinct() {
    let mut chain = AuditChain::new();
    chain.append(entry("MANUAL", "opA", "same", None), "t".to_string());
    chain.append(entry("MANUAL", "opA", "same", None), "t".to_string());
    chain.append(entry("MANUAL", "opA", "same", None), "t".to_string());

    let mut prev_refs: Vec<String> = vec!["GENESIS".to_string()];
    for e in chain.entries().iter().take(chain.len() - 1) {
        prev_refs.push(e.signature.clone());
    }
    for i in 0..prev_refs.len() {
        for j in (i + 1)..prev_refs.len() {
            assert_ne!(prev_refs[i], prev_refs[j]);
        }
    }
}

#[test]
fn last_signature_is_genesis_for_an_empty_chain() {
    let chain = AuditChain::new();
    assert_eq!(chain.last_signature(), genesis_signature());
    assert_eq!(chain.last_signature(), "GENESIS");
    assert_eq!(chain.len(), 0);
}

#[test]
fn last_signature_follows_the_newest_entry() {
    let mut chain = AuditChain::new();
    chain.append(entry("MANUAL", "opA", "one", None), "t1".to_string());
    assert_eq!(chain.last_signature(), chain.entries()[0].signature);
    chain.append(entry("MANUAL", "opA", "two", None), "t2".to_string());
    assert_eq!(chain.last_signature(), chain.entries()[1].signature);
}

#[test]
fn ids_count_entries_from_one() {
    let mut chain = AuditChain::new();
    chain.append(entry("MANUAL", "opA", "one", None), "t1".to_string());
    chain.append(entry("MANUAL", "opA", "two", None), "t2".to_string());
    assert_eq!(chain.entries()[0].id, 1);
    assert_eq!(chain.entries()[1].id, 2);
}

#[test]
fn append_now_extends_the_chain_and_still_verifies() {
    let mut chain = AuditChain::new();
    chain.append_now(entry("MANUAL", "opA", "stamped", Some("EQ-9")));
    chain.append_now(entry("AUTO", "scada", "stamped again", None));
    assert_eq!(chain.len(), 2);
    assert!(verify_chain(chain.entries()));
}

#[test]
fn empty_chain_verifies() {
    let entries = Vec::new();
    assert!(verify_chain(&entries));
}

#[test]
fn stored_rows_that_replay_are_adopted_as_a_chain() {
    let mut chain = AuditChain::new();
    chain.append(entry("MANUAL", "opA", "one", None), "t1".to_string());
    chain.append(entry("AUTO", "scada", "two", Some("EQ-1")), "t2".to_string());
    let reloaded = AuditChain::from_entries(chain.entries().clone()).unwrap();
    assert_eq!(reloaded.len(), 2);
    assert_eq!(reloaded.last_signature(), chain.last_signature());
}

#[test]
fn tampered_rows_are_refused_on_adoption() {
    let mut chain = AuditChain::new();
    chain.append(entry("MANUAL", "opA", "one", None), "t1".to_string());
    let mut rows = chain.entries().clone();
    rows[0].message = "zero".to_string();
    assert!(AuditChain::from_entries(rows).is_none());
}

#[test]
fn rows_with_wrong_ids_are_refused_on_adoption() {
    let mut chain = AuditChain::new();
    chain.append(entry("MANUAL", "opA", "one", None), "t1".to_string());
    let mut rows = chain.entries().clone();
    rows[0].id = 7;
    assert!(AuditChain::from_entries(rows).is_none());
}

#[test]
fn adoption_continues_the_chain_it_adopted() {
    let mut chain = AuditChain::new();
    chain.append(entry("MANUAL", "opA", "one", None), "t1".to_string());
    let mut reloaded = AuditChain::from_entries(chain.entries().clone()).unwrap();
    reloaded.append(entry("MANUAL", "opA", "two", None), "t2".to_string());
    assert!(verify_chain(reloaded.entries()));
    assert_eq!(reloaded.entries()[1].id, 2);
}
