// Commit-reveal protocol behaviour against independently computed hashes.

use sha2::Digest;

use zkp::hidden_stats_circuit::HiddenStatsCircuit;
use zkp::sim_smart_contract::{CreateOutcome, Item, RevealOutcome, SimSmartContract};

fn hash_string_of(vit: u32, wis: u32, pow: u32, agi: u32) -> String {
    let preimage: Vec<u8> = [vit, wis, pow, agi]
        .iter()
        .flat_map(|s| s.to_le_bytes())
        .collect();
    base64::encode(sha2::Sha256::digest(&preimage))
}

fn hidden_contract(vit: u32, wis: u32, pow: u32, agi: u32, total: u32) -> SimSmartContract {
    SimSmartContract {
        vk_string: String::from("unused"),
        item: Some(Item::Hidden {
            total_stats: total,
            hash_string: hash_string_of(vit, wis, pow, agi),
            proof_string: String::from("opaque-proof"),
        }),
    }
}

#[test]
fn preimage_is_little_endian_concatenation() {
    let c = HiddenStatsCircuit {
        vit: Some(18),
        wis: Some(11),
        pow: Some(100),
        agi: Some(1),
    };
    let bytes = c.all_stats_bytes().unwrap();
    assert_eq!(
        bytes,
        vec![18, 0, 0, 0, 11, 0, 0, 0, 100, 0, 0, 0, 1, 0, 0, 0]
    );
}

#[test]
fn preimage_absent_when_unassigned() {
    let c = HiddenStatsCircuit {
        vit: Some(18),
        wis: None,
        pow: Some(100),
        agi: Some(1),
    };
    assert!(c.all_stats_bytes().is_none());
    let bits = c.preimage_bits();
    assert_eq!(bits.len(), 128);
    assert!(bits.iter().all(|b| b.is_none()));
    assert!(c.total_stats().is_none());
}

#[test]
fn preimage_bits_least_significant_first() {
    let c = HiddenStatsCircuit {
        vit: Some(18),
        wis: Some(11),
        pow: Some(100),
        agi: Some(1),
    };
    let bits = c.preimage_bits();
    assert_eq!(bits.len(), 128);
    // 18 = 0b00010010: bits 1 and 4 set, least significant first.
    let first_byte: Vec<bool> = bits[..8].iter().map(|b| b.unwrap()).collect();
    assert_eq!(
        first_byte,
        vec![false, true, false, false, true, false, false, false]
    );
}

#[test]
fn total_stats_is_the_sum() {
    let c = HiddenStatsCircuit {
        vit: Some(18),
        wis: Some(11),
        pow: Some(100),
        agi: Some(1),
    };
    assert_eq!(c.total_stats(), Some(130));
}

#[test]
fn reveal_with_matching_values_succeeds() {
    let mut contract = hidden_contract(18, 11, 100, 1, 130);
    let outcome = contract.reveal_stats(18, 11, 100, 1);
    assert_eq!(outcome, RevealOutcome::Revealed);
    assert_eq!(
        contract.item,
        Some(Item::Revealed {
            vit: 18,
            wis: 11,
            pow: 100,
            agi: 1
        })
    );
}

#[test]
fn reveal_with_mismatching_values_reports_and_stays_hidden() {
    let mut contract = hidden_contract(18, 11, 100, 1, 130);
    let before = contract.item.clone();
    let outcome = contract.reveal_stats(18, 11, 100, 2);
    assert_eq!(outcome, RevealOutcome::HashMismatch);
    assert_eq!(contract.item, before);
    assert!(matches!(contract.item, Some(Item::Hidden { .. })));
}

#[test]
fn reveal_on_empty_instance_reports_no_item() {
    let mut contract = SimSmartContract::new(String::from("some-key"));
    let outcome = contract.reveal_stats(1, 2, 3, 4);
    assert_eq!(outcome, RevealOutcome::NoItem);
    assert!(contract.item.is_none());
}

#[test]
fn reveal_on_revealed_item_is_a_no_op() {
    let mut contract = hidden_contract(18, 11, 100, 1, 130);
    assert_eq!(contract.reveal_stats(18, 11, 100, 1), RevealOutcome::Revealed);
    let revealed = contract.item.clone();
    // A second reveal, even with other values, changes nothing.
    let outcome = contract.reveal_stats(7, 7, 7, 7);
    assert_eq!(outcome, RevealOutcome::AlreadyRevealed);
    assert_eq!(contract.item, revealed);
}

#[test]
fn apply_verification_success_stores_hidden_item() {
    let mut contract = SimSmartContract::new(String::from("key"));
    let outcome = contract.apply_verification(true, "proof-text", 130, "hash-text");
    assert_eq!(outcome, CreateOutcome::Created);
    assert_eq!(
        contract.item,
        Some(Item::Hidden {
            total_stats: 130,
            hash_string: String::from("hash-text"),
            proof_string: String::from("proof-text"),
        })
    );
}

#[test]
fn apply_verification_failure_changes_nothing() {
    let mut contract = SimSmartContract::new(String::from("key"));
    let outcome = contract.apply_verification(false, "proof-text", 130, "hash-text");
    assert_eq!(outcome, CreateOutcome::VerificationFailed);
    assert!(contract.item.is_none());
}

#[test]
fn concrete_scenario_total_and_preimage() {
    // vit=18, wis=11, pow=100, agi=1: total 130, preimage of little-endian
    // words, hash its SHA-256 digest.
    let (vit, wis, pow, agi) = (18u32, 11u32, 100u32, 1u32);
    assert_eq!(vit + wis + pow + agi, 130);
    let c = HiddenStatsCircuit {
        vit: Some(vit),
        wis: Some(wis),
        pow: Some(pow),
        agi: Some(agi),
    };
    let preimage = c.all_stats_bytes().unwrap();
    let expected: Vec<u8> = [vit, wis, pow, agi]
        .iter()
        .flat_map(|s| s.to_le_bytes())
        .collect();
    assert_eq!(preimage, expected);

    let mut contract = hidden_contract(vit, wis, pow, agi, 130);
    let mut copy = SimSmartContract {
        vk_string: contract.vk_string.clone(),
        item: contract.item.clone(),
    };
    assert_eq!(contract.reveal_stats(18, 11, 100, 1), RevealOutcome::Revealed);
    assert_eq!(copy.reveal_stats(18, 11, 100, 2), RevealOutcome::HashMismatch);
    assert!(matches!(copy.item, Some(Item::Hidden { .. })));
}

#[test]
fn preimage_handles_largest_values() {
    let c = HiddenStatsCircuit {
        vit: Some(u32::MAX),
        wis: Some(0),
        pow: Some(0),
        agi: Some(0),
    };
    let bytes = c.all_stats_bytes().unwrap();
    assert_eq!(
        bytes,
        vec![255, 255, 255, 255, 0, 0, 0, 0, 0, 0, 0, 0, 0, 0, 0, 0]
    );
    assert_eq!(c.total_stats(), Some(u32::MAX));
}
