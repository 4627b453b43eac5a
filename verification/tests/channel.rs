use ftsov2mon::data::Data;
use ftsov2mon::snapshot::SnapshotChannel;

fn snapshot(tag: u64) -> Data {
    Data {
        signing_policy_tx_found: tag % 2 == 0,
        signing_policy_balance: tag,
        submit_tx_found: tag % 3 == 0,
        submit_balance: tag + 1,
        submit_signature_tx_found: tag % 5 == 0,
        submit_signature_balance: tag + 2,
    }
}

#[test]
fn read_before_first_publish_is_the_zero_snapshot() {
    let channel = SnapshotChannel::new();
    let d = channel.read();
    assert_eq!(d, Data::zero());
    assert!(!d.signing_policy_tx_found);
    assert!(!d.submit_tx_found);
    assert!(!d.submit_signature_tx_found);
    assert_eq!(d.signing_policy_balance, 0);
    assert_eq!(d.submit_balance, 0);
    assert_eq!(d.submit_signature_balance, 0);
}

#[test]
fn read_returns_the_last_published_snapshot_whole() {
    let mut channel = SnapshotChannel::new();
    let first = snapshot(6);
    let second = snapshot(35);
    channel.publish(first);
    assert_eq!(channel.read(), first);
    channel.publish(second);
    // Last write wins, and no field of the first publication bleeds through.
    let read = channel.read();
    assert_eq!(read, second);
    assert_eq!(read.signing_policy_tx_found, second.signing_policy_tx_found);
    assert_eq!(read.signing_policy_balance, second.signing_policy_balance);
    assert_eq!(read.submit_tx_found, second.submit_tx_found);
    assert_eq!(read.submit_balance, second.submit_balance);
    assert_eq!(
        read.submit_signature_tx_found,
        second.submit_signature_tx_found
    );
    assert_eq!(read.submit_signature_balance, second.submit_signature_balance);
}

#[test]
fn repeated_reads_see_the_same_snapshot() {
    let mut channel = SnapshotChannel::new();
    let d = snapshot(9);
    channel.publish(d);
    assert_eq!(channel.read(), d);
    assert_eq!(channel.read(), d);
}
