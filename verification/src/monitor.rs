//! The liveness scanner: the decision core of the monitoring loop.
//!
//! Each iteration scans the block window `[latest - block_window, latest)`.
//! The surrounding loop fetches heights, balances and blocks from the chain
//! and polls the shutdown flag; every decision it takes — which sender
//! matches which role, what a missing block means, when to abort, what to
//! publish and which alerts to send — is made by the functions here, over
//! plain values.

use vstd::prelude::*;
use vstd::string::StringExecFns;
use crate::address::addr_matches;
use crate::data::{Data, Role};
use crate::runtime_config::RuntimeConfig;
use crate::text::{dec_of, push_dec};

verus! {

/// The in-progress state of one scan iteration: the window size it was
/// started with, the liveness flag and balance gathered for each role, and
/// whether a shutdown observation has aborted the iteration.
#[derive(Clone, Copy, Debug, PartialEq, Eq, Structural)]
pub struct ScanIter {
    pub block_window: u16,
    pub signing_policy_found: bool,
    pub submit_found: bool,
    pub submit_signature_found: bool,
    pub signing_policy_balance: u64,
    pub submit_balance: u64,
    pub submit_signature_balance: u64,
    pub aborted: bool,
}

/// What the loop must do after one transaction has been inspected.
#[derive(Clone, Copy, Debug, PartialEq, Eq, Structural)]
pub enum StepVerdict {
    /// Keep scanning.
    Continue,
    /// A shutdown was observed: leave without finishing or publishing.
    Abort,
}

/// The first block height of the window ending just below `latest`: the
/// window covers `[latest - block_window, latest)`, clamped at the genesis
/// height when the chain is younger than the window.
pub open spec fn spec_window_start(latest: u64, block_window: u16) -> u64 {
    if latest >= block_window as u64 {
        (latest - block_window as u64) as u64
    } else {
        0
    }
}

/// The half-open block-height range scanned when the chain head is `latest`.
pub fn scan_window(latest: u64, block_window: u16) -> (r: (u64, u64))
    ensures
        r.0 == spec_window_start(latest, block_window),
        r.1 == latest,
{
    if latest >= block_window as u64 {
        (latest - block_window as u64, latest)
    } else {
        (0, latest)
    }
}

/// At least one of the senders matches the address, ignoring case.
pub open spec fn found_in(addr: Seq<u8>, senders: Seq<Seq<u8>>) -> bool {
    exists|i: int| 0 <= i < senders.len() && addr_matches(#[trigger] senders[i], addr)
}

/// The liveness flag left by folding one sender after another into `init`,
/// as the scanner's transaction loop does.
pub open spec fn spec_scan_flag(init: bool, addr: Seq<u8>, senders: Seq<Seq<u8>>) -> bool
    decreases senders.len(),
{
    if senders.len() == 0 {
        init
    } else {
        spec_scan_flag(init || addr_matches(senders[0], addr), addr, senders.drop_first())
    }
}

/// Folding a window of senders sets the flag exactly when the window holds a
/// matching sender or the flag already was set.
pub proof fn lemma_scan_flag_accumulates(init: bool, addr: Seq<u8>, senders: Seq<Seq<u8>>)
    ensures
        spec_scan_flag(init, addr, senders) == (init || found_in(addr, senders)),
    decreases senders.len(),
{
    if senders.len() > 0 {
        let rest = senders.drop_first();
        lemma_scan_flag_accumulates(init || addr_matches(senders[0], addr), addr, rest);
        assert(found_in(addr, senders) == (addr_matches(senders[0], addr) || found_in(
            addr,
            rest,
        ))) by {
            if found_in(addr, rest) {
                let i = choose|i: int|
                    0 <= i < rest.len() && addr_matches(#[trigger] rest[i], addr);
                assert(senders[i + 1] == rest[i]);
            }
            if found_in(addr, senders) && !addr_matches(senders[0], addr) {
                let i = choose|i: int|
                    0 <= i < senders.len() && addr_matches(#[trigger] senders[i], addr);
                assert(rest[i - 1] == senders[i]);
            }
        }
    }
}

/// The senders a fetched block contributes to the scan; a missing block
/// contributes none.
pub open spec fn block_senders(block: Option<Seq<Seq<u8>>>) -> Seq<Seq<u8>> {
    match block {
        Some(s) => s,
        None => Seq::empty(),
    }
}

/// Every sender in a window of fetched blocks, in scan order.
pub open spec fn window_senders(blocks: Seq<Option<Seq<Seq<u8>>>>) -> Seq<Seq<u8>>
    decreases blocks.len(),
{
    if blocks.len() == 0 {
        Seq::empty()
    } else {
        block_senders(blocks[0]) + window_senders(blocks.drop_first())
    }
}

/// A matching sender lies in the concatenation of two windows exactly when
/// one of the two holds it.
pub proof fn lemma_found_in_concat(addr: Seq<u8>, s1: Seq<Seq<u8>>, s2: Seq<Seq<u8>>)
    ensures
        found_in(addr, s1 + s2) == (found_in(addr, s1) || found_in(addr, s2)),
{
    let both = s1 + s2;
    if found_in(addr, s1) {
        let i = choose|i: int| 0 <= i < s1.len() && addr_matches(#[trigger] s1[i], addr);
        assert(both[i] == s1[i]);
    }
    if found_in(addr, s2) {
        let i = choose|i: int| 0 <= i < s2.len() && addr_matches(#[trigger] s2[i], addr);
        assert(both[s1.len() + i] == s2[i]);
    }
    if found_in(addr, both) {
        let i = choose|i: int| 0 <= i < both.len() && addr_matches(#[trigger] both[i], addr);
        if i < s1.len() {
            assert(s1[i] == both[i]);
        } else {
            assert(s2[i - s1.len()] == both[i]);
        }
    }
}

/// The flag left by scanning a whole window of fetched blocks, block after
/// block, transaction after transaction, starting from `init`.
pub open spec fn spec_window_flag(init: bool, addr: Seq<u8>, blocks: Seq<Option<Seq<Seq<u8>>>>) -> bool
    decreases blocks.len(),
{
    if blocks.len() == 0 {
        init
    } else {
        spec_window_flag(
            spec_scan_flag(init, addr, block_senders(blocks[0])),
            addr,
            blocks.drop_first(),
        )
    }
}

/// Scanning a window sets the flag exactly when the flag already was set or
/// some fetched block of the window holds a transaction whose sender matches
/// the address.
pub proof fn lemma_window_flag_accumulates(
    init: bool,
    addr: Seq<u8>,
    blocks: Seq<Option<Seq<Seq<u8>>>>,
)
    ensures
        spec_window_flag(init, addr, blocks) == (init || spec_window_found(addr, blocks)),
    decreases blocks.len(),
{
    if blocks.len() == 0 {
    } else {
        let first = block_senders(blocks[0]);
        let rest = blocks.drop_first();
        lemma_scan_flag_accumulates(init, addr, first);
        lemma_window_flag_accumulates(spec_scan_flag(init, addr, first), addr, rest);
        lemma_found_in_concat(addr, first, window_senders(rest));
    }
}

/// The liveness property of one scan iteration: starting from a clear flag,
/// the scan ends with the flag set exactly when the window holds at least
/// one transaction from the address.
pub proof fn lemma_window_liveness(addr: Seq<u8>, blocks: Seq<Option<Seq<Seq<u8>>>>)
    ensures
        spec_window_flag(false, addr, blocks) <==> spec_window_found(addr, blocks),
{
    lemma_window_flag_accumulates(false, addr, blocks);
}

/// Whether an address authored a transaction anywhere in the fetched window.
pub open spec fn spec_window_found(addr: Seq<u8>, blocks: Seq<Option<Seq<Seq<u8>>>>) -> bool {
    found_in(addr, window_senders(blocks))
}

/// One block among many being missing does not disturb what the others
/// show: the scan over the window equals the scan with the missing block
/// left out entirely.
pub proof fn lemma_missing_block_skipped(
    addr: Seq<u8>,
    blocks: Seq<Option<Seq<Seq<u8>>>>,
    i: int,
)
    requires
        0 <= i < blocks.len(),
        blocks[i] is None,
    ensures
        spec_window_found(addr, blocks) == spec_window_found(addr, blocks.remove(i)),
    decreases blocks.len(),
{
    lemma_window_senders_remove_missing(blocks, i);
}

/// Removing a missing block from a window leaves the gathered senders
/// unchanged.
proof fn lemma_window_senders_remove_missing(blocks: Seq<Option<Seq<Seq<u8>>>>, i: int)
    requires
        0 <= i < blocks.len(),
        blocks[i] is None,
    ensures
        window_senders(blocks) == window_senders(blocks.remove(i)),
    decreases blocks.len(),
{
    if i == 0 {
        assert(blocks.remove(0) =~= blocks.drop_first());
        assert(Seq::<Seq<u8>>::empty() + window_senders(blocks.drop_first()) =~= window_senders(
            blocks.drop_first(),
        ));
    } else {
        lemma_window_senders_remove_missing(blocks.drop_first(), i - 1);
        assert(blocks.remove(i).drop_first() =~= blocks.drop_first().remove(i - 1));
        assert(blocks.remove(i)[0] == blocks[0]);
        assert(window_senders(blocks) =~= window_senders(blocks.remove(i)));
    }
}

/// Starts one scan iteration, once the balances of the three tracked
/// addresses have been fetched: no role has been seen yet and nothing has
/// aborted the iteration.
pub fn begin_scan(
    block_window: u16,
    signing_policy_balance: u64,
    submit_balance: u64,
    submit_signature_balance: u64,
) -> (iter: ScanIter)
    ensures
        iter == (ScanIter {
            block_window,
            signing_policy_found: false,
            submit_found: false,
            submit_signature_found: false,
            signing_policy_balance,
            submit_balance,
            submit_signature_balance,
            aborted: false,
        }),
{
    ScanIter {
        block_window,
        signing_policy_found: false,
        submit_found: false,
        submit_signature_found: false,
        signing_policy_balance,
        submit_balance,
        submit_signature_balance,
        aborted: false,
    }
}

/// Inspects one transaction: each role whose address matches the sender
/// (ignoring case) has its flag set, and a shutdown observed at this
/// checkpoint aborts the iteration — the verdict tells the loop to stop at
/// once, before any further transaction is processed.
pub fn process_transaction(
    iter: &mut ScanIter,
    sender: &Vec<u8>,
    config: &RuntimeConfig,
    shutdown_seen: bool,
) -> (v: StepVerdict)
    ensures
        final(iter).signing_policy_found == (old(iter).signing_policy_found
            || config.spec_sender_is(Role::SigningPolicy, sender@)),
        final(iter).submit_found == (old(iter).submit_found || config.spec_sender_is(
            Role::Submit,
            sender@,
        )),
        final(iter).submit_signature_found == (old(iter).submit_signature_found
            || config.spec_sender_is(Role::SubmitSignature, sender@)),
        final(iter).aborted == (old(iter).aborted || shutdown_seen),
        final(iter).block_window == old(iter).block_window,
        final(iter).signing_policy_balance == old(iter).signing_policy_balance,
        final(iter).submit_balance == old(iter).submit_balance,
        final(iter).submit_signature_balance == old(iter).submit_signature_balance,
        v == StepVerdict::Abort <==> final(iter).aborted,
{
    if crate::address::eq_ignore_ascii_case(sender, &config.submit_signature_address) {
        iter.submit_signature_found = true;
    }
    if crate::address::eq_ignore_ascii_case(sender, &config.signing_policy_address) {
        iter.signing_policy_found = true;
    }
    if crate::address::eq_ignore_ascii_case(sender, &config.submit_address) {
        iter.submit_found = true;
    }
    if shutdown_seen {
        iter.aborted = true;
    }
    if iter.aborted {
        StepVerdict::Abort
    } else {
        StepVerdict::Continue
    }
}

/// Inspects every transaction of one fetched block, with no shutdown
/// observation in between: each role's flag ends set exactly when it already
/// was or the block holds a matching sender.
pub fn scan_block(iter: &mut ScanIter, senders: &Vec<Vec<u8>>, config: &RuntimeConfig)
    ensures
        final(iter).signing_policy_found == (old(iter).signing_policy_found || found_in(
            config.signing_policy_address@,
            senders.deep_view(),
        )),
        final(iter).submit_found == (old(iter).submit_found || found_in(
            config.submit_address@,
            senders.deep_view(),
        )),
        final(iter).submit_signature_found == (old(iter).submit_signature_found || found_in(
            config.submit_signature_address@,
            senders.deep_view(),
        )),
        final(iter).aborted == old(iter).aborted,
        final(iter).block_window == old(iter).block_window,
        final(iter).signing_policy_balance == old(iter).signing_policy_balance,
        final(iter).submit_balance == old(iter).submit_balance,
        final(iter).submit_signature_balance == old(iter).submit_signature_balance,
{
    let ghost all = senders.deep_view();
    let n = senders.len();
    let mut i: usize = 0;
    while i < n
        invariant
            n == senders.len(),
            all == senders.deep_view(),
            i <= n,
            iter.signing_policy_found == (old(iter).signing_policy_found || found_in(
                config.signing_policy_address@,
                all.take(i as int),
            )),
            iter.submit_found == (old(iter).submit_found || found_in(
                config.submit_address@,
                all.take(i as int),
            )),
            iter.submit_signature_found == (old(iter).submit_signature_found || found_in(
                config.submit_signature_address@,
                all.take(i as int),
            )),
            iter.aborted == old(iter).aborted,
            iter.block_window == old(iter).block_window,
            iter.signing_policy_balance == old(iter).signing_policy_balance,
            iter.submit_balance == old(iter).submit_balance,
            iter.submit_signature_balance == old(iter).submit_signature_balance,
        decreases n - i,
    {
        let ghost before = *iter;
        process_transaction(iter, &senders[i], config, false);
        proof {
            assert(all[i as int] =~= senders@[i as int]@);
            assert(all.take(i + 1) =~= all.take(i as int).push(all[i as int]));
            lemma_found_in_push(config.signing_policy_address@, all.take(i as int), all[i as int]);
            lemma_found_in_push(config.submit_address@, all.take(i as int), all[i as int]);
            lemma_found_in_push(
                config.submit_signature_address@,
                all.take(i as int),
                all[i as int],
            );
        }
        i = i + 1;
    }
    proof {
        assert(all.take(n as int) =~= all);
    }
}

/// Extending a window of senders by one more transaction finds an address
/// exactly when the window already did or the new sender matches.
pub proof fn lemma_found_in_push(addr: Seq<u8>, senders: Seq<Seq<u8>>, sender: Seq<u8>)
    ensures
        found_in(addr, senders.push(sender)) == (found_in(addr, senders) || addr_matches(
            sender,
            addr,
        )),
{
    let pushed = senders.push(sender);
    if found_in(addr, senders) {
        let i = choose|i: int| 0 <= i < senders.len() && addr_matches(#[trigger] senders[i], addr);
        assert(pushed[i] == senders[i]);
    }
    if addr_matches(sender, addr) {
        assert(pushed[senders.len() as int] == sender);
    }
    if found_in(addr, pushed) && !addr_matches(sender, addr) {
        let i = choose|i: int| 0 <= i < pushed.len() && addr_matches(#[trigger] pushed[i], addr);
        assert(i < senders.len() && senders[i] == pushed[i]);
    }
}

impl ScanIter {
    /// The snapshot this iteration would publish.
    pub open spec fn spec_snapshot(&self) -> Data {
        (Data {
            signing_policy_tx_found: self.signing_policy_found,
            signing_policy_balance: self.signing_policy_balance,
            submit_tx_found: self.submit_found,
            submit_balance: self.submit_balance,
            submit_signature_tx_found: self.submit_signature_found,
            submit_signature_balance: self.submit_signature_balance,
        })
    }
}

/// What closing an iteration yields: nothing for an aborted one, else the
/// snapshot of this iteration, whole.
pub open spec fn spec_finish(iter: ScanIter) -> Option<Data> {
    if iter.aborted {
        None
    } else {
        Some(iter.spec_snapshot())
    }
}

/// An iteration aborted by a shutdown observation publishes no snapshot.
pub proof fn lemma_abort_suppresses_publication(iter: ScanIter)
    requires
        iter.aborted,
    ensures
        spec_finish(iter) is None,
{
}

/// Closes one iteration. An aborted iteration yields nothing — a shutdown
/// observed mid-scan suppresses publication entirely; a completed one yields
/// the snapshot built from this iteration's flags and balances, whole.
pub fn finish_scan(iter: &ScanIter) -> (r: Option<Data>)
    ensures
        r == spec_finish(*iter),
        iter.aborted ==> r is None,
        !iter.aborted ==> r == Some(iter.spec_snapshot()),
{
    if iter.aborted {
        None
    } else {
        Some(
            Data {
                signing_policy_tx_found: iter.signing_policy_found,
                signing_policy_balance: iter.signing_policy_balance,
                submit_tx_found: iter.submit_found,
                submit_balance: iter.submit_balance,
                submit_signature_tx_found: iter.submit_signature_found,
                submit_signature_balance: iter.submit_signature_balance,
            },
        )
    }
}

/// The roles a completed iteration must raise an alert for: exactly those
/// whose flag stayed `false`, in the order the alerts are dispatched.
pub open spec fn spec_alert_roles(d: Data) -> Seq<Role> {
    (if !d.submit_signature_tx_found {
        seq![Role::SubmitSignature]
    } else {
        Seq::empty()
    }) + (if !d.submit_tx_found {
        seq![Role::Submit]
    } else {
        Seq::empty()
    }) + (if !d.signing_policy_tx_found {
        seq![Role::SigningPolicy]
    } else {
        Seq::empty()
    })
}

/// The roles to alert for after a completed iteration.
pub fn alerts_for(d: &Data) -> (roles: Vec<Role>)
    ensures
        roles@ == spec_alert_roles(*d),
{
    let mut roles: Vec<Role> = Vec::new();
    if !d.submit_signature_tx_found {
        roles.push(Role::SubmitSignature);
    }
    if !d.submit_tx_found {
        roles.push(Role::Submit);
    }
    if !d.signing_policy_tx_found {
        roles.push(Role::SigningPolicy);
    }
    assert(roles@ =~= spec_alert_roles(*d));
    roles
}

/// Alerts are raised for exactly the silent roles: a role appears among the
/// alert roles of a snapshot precisely when its found flag is clear.
pub proof fn lemma_alerts_exactly_the_silent_roles(d: Data)
    ensures
        spec_alert_roles(d).contains(Role::SubmitSignature) <==> !d.submit_signature_tx_found,
        spec_alert_roles(d).contains(Role::Submit) <==> !d.submit_tx_found,
        spec_alert_roles(d).contains(Role::SigningPolicy) <==> !d.signing_policy_tx_found,
{
    let s = spec_alert_roles(d);
    let n1: int = if !d.submit_signature_tx_found {
        1
    } else {
        0
    };
    let n2: int = if !d.submit_tx_found {
        1
    } else {
        0
    };
    if !d.submit_signature_tx_found {
        assert(s[0] == Role::SubmitSignature);
    }
    if !d.submit_tx_found {
        assert(s[n1] == Role::Submit);
    }
    if !d.signing_policy_tx_found {
        assert(s[n1 + n2] == Role::SigningPolicy);
    }
}

/// The display name of a role's address in alert texts.
pub open spec fn spec_role_title(role: Role) -> Seq<char> {
    match role {
        Role::SigningPolicy => "Signing Policy Address"@,
        Role::Submit => "Submit Address"@,
        Role::SubmitSignature => "Submit Signature Address"@,
    }
}

/// The alert text for a role that stayed silent over a window.
pub open spec fn spec_alert_message(role: Role, block_window: u16) -> Seq<char> {
    "v2: "@ + spec_role_title(role) + " has not signed for "@ + dec_of(block_window as nat)
        + " blocks!"@
}

/// Builds the alert text naming the silent role and the window size.
pub fn alert_message(role: Role, block_window: u16) -> (s: String)
    ensures
        s@ == spec_alert_message(role, block_window),
{
    let mut s = String::from_str("v2: ");
    match role {
        Role::SigningPolicy => s.append("Signing Policy Address"),
        Role::Submit => s.append("Submit Address"),
        Role::SubmitSignature => s.append("Submit Signature Address"),
    }
    s.append(" has not signed for ");
    push_dec(&mut s, block_window as u64);
    s.append(" blocks!");
    assert(s@ =~= spec_alert_message(role, block_window));
    s
}

} // verus!
