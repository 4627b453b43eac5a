use ftsov2mon::data::Role;
use ftsov2mon::monitor::{
    alert_message, alerts_for, begin_scan, finish_scan, process_transaction, scan_block,
    scan_window, StepVerdict,
};
use ftsov2mon::runtime_config::RuntimeConfig;

const SPA: &str = "0xaaaaaaaaaaaaaaaaaaaaaaaaaaaaaaaaaaaaaaaa";
const SA: &str = "0xbbbbbbbbbbbbbbbbbbbbbbbbbbbbbbbbbbbbbbbb";
const SSA: &str = "0xcccccccccccccccccccccccccccccccccccccccc";

fn config(block_window: u16) -> RuntimeConfig {
    RuntimeConfig {
        tg_api_key: String::new(),
        tg_chat_id: String::new(),
        rpc_url: String::from("http://localhost:9650"),
        block_window,
        submit_address: SA.as_bytes().to_vec(),
        submit_signature_address: SSA.as_bytes().to_vec(),
        signing_policy_address: SPA.as_bytes().to_vec(),
    }
}

fn senders(list: &[&str]) -> Vec<Vec<u8>> {
    list.iter().map(|s| s.as_bytes().to_vec()).collect()
}

#[test]
fn found_when_window_holds_a_tracked_sender() {
    let cfg = config(100);
    let mut iter = begin_scan(100, 0, 0, 0);
    scan_block(
        &mut iter,
        &senders(&["0x1111111111111111111111111111111111111111", SPA]),
        &cfg,
    );
    assert!(iter.signing_policy_found);
    assert!(!iter.submit_found);
    assert!(!iter.submit_signature_found);
}

#[test]
fn not_found_when_window_holds_none() {
    let cfg = config(100);
    let mut iter = begin_scan(100, 0, 0, 0);
    scan_block(
        &mut iter,
        &senders(&[
            "0x1111111111111111111111111111111111111111",
            "0x2222222222222222222222222222222222222222",
        ]),
        &cfg,
    );
    assert!(!iter.signing_policy_found);
    assert!(!iter.submit_found);
    assert!(!iter.submit_signature_found);
}

#[test]
fn sender_comparison_is_case_insensitive() {
    let cfg = config(100);
    let mut iter = begin_scan(100, 0, 0, 0);
    // The configured address is lower case; the chain reports upper case.
    scan_block(
        &mut iter,
        &senders(&["0xBBBBBBBBBBBBBBBBBBBBBBBBBBBBBBBBBBBBBBBB"]),
        &cfg,
    );
    assert!(iter.submit_found);
    assert!(ftsov2mon::address::eq_ignore_ascii_case(
        &b"0xAbCd".to_vec(),
        &b"0xaBcD".to_vec()
    ));
    assert!(!ftsov2mon::address::eq_ignore_ascii_case(
        &b"0xAbCd".to_vec(),
        &b"0xaBcE".to_vec()
    ));
}

#[test]
fn missing_block_does_not_mask_the_others() {
    let cfg = config(3);
    let mut iter = begin_scan(3, 0, 0, 0);
    // Three heights: the first holds a submit transaction, the second is
    // missing and is skipped, the third is empty.
    scan_block(&mut iter, &senders(&[SA]), &cfg);
    // height start + 1: fetch failed, nothing to scan
    scan_block(&mut iter, &senders(&[]), &cfg);
    let snapshot = finish_scan(&iter).expect("scan was not aborted");
    assert!(snapshot.submit_tx_found);
    assert!(!snapshot.signing_policy_tx_found);
    assert!(!snapshot.submit_signature_tx_found);
}

#[test]
fn shutdown_aborts_within_one_transaction_step() {
    let cfg = config(100);
    let mut iter = begin_scan(100, 0, 0, 0);
    let verdict = process_transaction(
        &mut iter,
        &SPA.as_bytes().to_vec(),
        &cfg,
        true,
    );
    assert_eq!(verdict, StepVerdict::Abort);
    assert!(iter.aborted);
    // An aborted iteration publishes nothing.
    assert!(finish_scan(&iter).is_none());
}

#[test]
fn no_shutdown_means_the_scan_continues() {
    let cfg = config(100);
    let mut iter = begin_scan(100, 0, 0, 0);
    let verdict = process_transaction(
        &mut iter,
        &SPA.as_bytes().to_vec(),
        &cfg,
        false,
    );
    assert_eq!(verdict, StepVerdict::Continue);
    assert!(!iter.aborted);
    assert!(finish_scan(&iter).is_some());
}

#[test]
fn two_block_window_with_one_signing_policy_transaction() {
    // Window of two blocks at heights 98 and 99; only height 98 carries a
    // transaction, and it comes from the signing policy address.
    let cfg = config(2);
    let (start, end) = scan_window(100, 2);
    assert_eq!((start, end), (98, 100));
    let mut iter = begin_scan(2, 0, 0, 0);
    scan_block(&mut iter, &senders(&[SPA]), &cfg);
    scan_block(&mut iter, &senders(&[]), &cfg);
    let snapshot = finish_scan(&iter).expect("scan was not aborted");
    assert!(snapshot.found(Role::SigningPolicy));
    assert!(!snapshot.found(Role::Submit));
    assert!(!snapshot.found(Role::SubmitSignature));
    // Alerts go to the two silent roles only.
    let roles = alerts_for(&snapshot);
    assert_eq!(roles, vec![Role::SubmitSignature, Role::Submit]);
}

#[test]
fn window_is_clamped_at_genesis() {
    assert_eq!(scan_window(1, 100), (0, 1));
    assert_eq!(scan_window(100, 100), (0, 100));
    assert_eq!(scan_window(101, 100), (1, 101));
}

#[test]
fn alert_text_names_the_role_and_the_window() {
    assert_eq!(
        alert_message(Role::Submit, 100),
        "v2: Submit Address has not signed for 100 blocks!"
    );
    assert_eq!(
        alert_message(Role::SubmitSignature, 7),
        "v2: Submit Signature Address has not signed for 7 blocks!"
    );
    assert_eq!(
        alert_message(Role::SigningPolicy, 65535),
        "v2: Signing Policy Address has not signed for 65535 blocks!"
    );
}
