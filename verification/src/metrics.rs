//! The metrics exporter: renders the latest snapshot and the live chain
//! diagnostics as a text exposition payload.
//!
//! The rendering is exact: each gauge is one `name value` line, balances are
//! printed in whole tokens with the smallest-unit remainder as a decimal
//! fraction, and the sync flag distinguishes a failed status query from a
//! healthy "not syncing" answer.

use vstd::prelude::*;
use vstd::string::StringExecFns;
use crate::data::Data;
use crate::mon_error::MonError;
use crate::text::{dec_of, lemma_dec_len_bound, pow10, u64_text};
use crate::SMALLEST_UNITS_PER_TOKEN;

verus! {

/// What the node's sync status query showed: syncing, not syncing, or — when
/// the query itself failed — that the status could not be determined.
#[derive(Clone, Copy, Debug, PartialEq, Eq, Structural)]
pub enum SyncStatus {
    Syncing,
    NotSyncing,
    Unknown,
}

/// Classifies the outcome of a sync status query. A failed query yields
/// `Unknown`, kept distinct from a healthy "not syncing" answer.
pub fn classify_sync(observed: Option<bool>) -> (s: SyncStatus)
    ensures
        observed == Some(true) ==> s == SyncStatus::Syncing,
        observed == Some(false) ==> s == SyncStatus::NotSyncing,
        observed is None ==> s == SyncStatus::Unknown,
{
    match observed {
        Some(true) => SyncStatus::Syncing,
        Some(false) => SyncStatus::NotSyncing,
        None => SyncStatus::Unknown,
    }
}

/// Strips trailing zeroes from a fraction of `w` digits, keeping at least
/// one digit: the digits that remain and how many of them there are.
pub open spec fn spec_trim(f: nat, w: nat) -> (nat, nat)
    decreases w,
{
    if w <= 1 || f % 10 != 0 {
        (f, w)
    } else {
        spec_trim(f / 10, (w - 1) as nat)
    }
}

/// `k` zero characters.
pub open spec fn spec_pad(k: nat) -> Seq<char>
    decreases k,
{
    if k == 0 {
        Seq::empty()
    } else {
        spec_pad((k - 1) as nat) + seq!['0']
    }
}

/// The decimal text of a balance given in smallest units: whole tokens, a
/// point, then the 18-digit fractional part with trailing zeroes trimmed
/// down to at least one digit.
pub open spec fn spec_balance_text(b: nat) -> Seq<char> {
    let whole = b / (SMALLEST_UNITS_PER_TOKEN as nat);
    let frac = b % (SMALLEST_UNITS_PER_TOKEN as nat);
    let trimmed = spec_trim(frac, 18);
    let digits = dec_of(trimmed.0);
    let pad = if digits.len() <= trimmed.1 {
        (trimmed.1 - digits.len()) as nat
    } else {
        0
    };
    dec_of(whole) + seq!['.'] + spec_pad(pad) + digits
}

/// Renders a balance held in smallest units as whole tokens.
pub fn balance_text(b: u64) -> (s: String)
    ensures
        s@ == spec_balance_text(b as nat),
{
    proof {
        reveal_strlit(".");
        reveal_strlit("0");
        assert(pow10(18) == 1000000000000000000) by {
            reveal_with_fuel(pow10, 19);
        }
    }
    let whole = b / SMALLEST_UNITS_PER_TOKEN;
    let frac = b % SMALLEST_UNITS_PER_TOKEN;
    let ghost frac0: nat = frac as nat;
    let mut f = frac;
    let mut w: u64 = 18;
    while f % 10 == 0 && w > 1
        invariant
            1 <= w <= 18,
            f < pow10(w as nat),
            spec_trim(frac0, 18) == spec_trim(f as nat, w as nat),
        decreases w,
    {
        proof {
            assert(pow10(w as nat) == 10 * pow10((w - 1) as nat));
            assert(f / 10 < pow10((w - 1) as nat));
        }
        f = f / 10;
        w = w - 1;
    }
    assert(spec_trim(frac0, 18) == (f as nat, w as nat));
    let digits = u64_text(f);
    proof {
        lemma_dec_len_bound(f as nat, w as nat);
    }
    let dlen = digits.as_str().unicode_len();
    let pad = w - (dlen as u64);
    let mut s = u64_text(whole);
    s.append(".");
    assert(s@ =~= dec_of(whole as nat) + seq!['.'] + spec_pad(0));
    let mut k: u64 = 0;
    while k < pad
        invariant
            k <= pad,
            s@ == dec_of(whole as nat) + seq!['.'] + spec_pad(k as nat),
        decreases pad - k,
    {
        s.append("0");
        proof {
            reveal_strlit("0");
            assert("0"@ =~= seq!['0']);
            assert(s@ =~= dec_of(whole as nat) + seq!['.'] + spec_pad((k + 1) as nat));
        }
        k = k + 1;
    }
    s.append(digits.as_str());
    assert(s@ =~= spec_balance_text(b as nat));
    s
}

/// A boolean gauge value.
pub open spec fn flag_text(b: bool) -> Seq<char> {
    if b {
        "1"@
    } else {
        "0"@
    }
}

/// The sync gauge value: `1` syncing, `0` not syncing, `-1` when the status
/// query failed and the state could not be determined.
pub open spec fn sync_text(s: SyncStatus) -> Seq<char> {
    match s {
        SyncStatus::Syncing => "1"@,
        SyncStatus::NotSyncing => "0"@,
        SyncStatus::Unknown => "-1"@,
    }
}

/// One gauge line of the exposition text.
pub open spec fn spec_line(name: Seq<char>, value: Seq<char>) -> Seq<char> {
    name + " "@ + value + "\n"@
}

/// Appends one gauge line.
fn push_line(s: &mut String, name: &str, value: &str)
    ensures
        final(s)@ == old(s)@ + spec_line(name@, value@),
{
    s.append(name);
    s.append(" ");
    s.append(value);
    s.append("\n");
    assert(s@ =~= old(s)@ + spec_line(name@, value@));
}

/// The whole exposition payload: one gauge line per tracked-role found flag
/// and balance, the epoch-registration gauge, the sync flag, the current
/// chain height, and the configured block window.
pub open spec fn spec_render(height: u64, sync: SyncStatus, d: Data, block_window: u16) -> Seq<
    char,
> {
    spec_line("ftso_signing_policy_tx_found"@, flag_text(d.signing_policy_tx_found)) + spec_line(
        "ftso_signing_policy_balance"@,
        spec_balance_text(d.signing_policy_balance as nat),
    ) + spec_line("ftso_submit_tx_found"@, flag_text(d.submit_tx_found)) + spec_line(
        "ftso_submit_balance"@,
        spec_balance_text(d.submit_balance as nat),
    ) + spec_line("ftso_submit_signature_tx_found"@, flag_text(d.submit_signature_tx_found))
        + spec_line(
        "ftso_submit_signature_balance"@,
        spec_balance_text(d.submit_signature_balance as nat),
    ) + spec_line("ftso_registered_for_this_epoch"@, "0"@) + spec_line(
        "ftso_rpc_is_syncing"@,
        sync_text(sync),
    ) + spec_line("ftso_rpc_current_block"@, dec_of(height as nat)) + spec_line(
        "ftso_search_window"@,
        dec_of(block_window as nat),
    )
}

/// Renders the exposition payload for a known chain height.
pub fn render_body(height: u64, sync: SyncStatus, d: &Data, block_window: u16) -> (s: String)
    ensures
        s@ == spec_render(height, sync, *d, block_window),
{
    let mut s = String::new();
    push_line(
        &mut s,
        "ftso_signing_policy_tx_found",
        if d.signing_policy_tx_found {
            "1"
        } else {
            "0"
        },
    );
    let spa_balance = balance_text(d.signing_policy_balance);
    push_line(&mut s, "ftso_signing_policy_balance", spa_balance.as_str());
    push_line(
        &mut s,
        "ftso_submit_tx_found",
        if d.submit_tx_found {
            "1"
        } else {
            "0"
        },
    );
    let sa_balance = balance_text(d.submit_balance);
    push_line(&mut s, "ftso_submit_balance", sa_balance.as_str());
    push_line(
        &mut s,
        "ftso_submit_signature_tx_found",
        if d.submit_signature_tx_found {
            "1"
        } else {
            "0"
        },
    );
    let ssa_balance = balance_text(d.submit_signature_balance);
    push_line(&mut s, "ftso_submit_signature_balance", ssa_balance.as_str());
    push_line(&mut s, "ftso_registered_for_this_epoch", "0");
    push_line(
        &mut s,
        "ftso_rpc_is_syncing",
        match sync {
            SyncStatus::Syncing => "1",
            SyncStatus::NotSyncing => "0",
            SyncStatus::Unknown => "-1",
        },
    );
    let height_txt = u64_text(height);
    push_line(&mut s, "ftso_rpc_current_block", height_txt.as_str());
    let window_txt = u64_text(block_window as u64);
    push_line(&mut s, "ftso_search_window", window_txt.as_str());
    assert(s@ =~= spec_render(height, sync, *d, block_window));
    s
}

/// Renders one metrics request. A failed sync query degrades to the
/// `Unknown` sync value, but without a chain height there is no payload: the
/// request fails with the RPC error so callers surface a server error.
pub fn render_metrics(height: Option<u64>, sync: SyncStatus, d: &Data, block_window: u16) -> (r:
    Result<String, MonError>)
    ensures
        height matches Some(h) ==> (r matches Ok(s) && s@ == spec_render(
            h,
            sync,
            *d,
            block_window,
        )),
        height is None ==> (r matches Err(e) && e is RpcClientError),
{
    match height {
        Some(h) => Ok(render_body(h, sync, d, block_window)),
        None => Err(
            MonError::RpcClientError(String::from_str("could not fetch the current block height")),
        ),
    }
}

/// The content type of the exposition payload.
pub fn content_type() -> (r: &'static str)
    ensures
        r@ == "text/plain; version=0.0.4"@,
{
    "text/plain; version=0.0.4"
}

} // verus!
