//! The decisions of the poll/classify/send/persist cycle. The driver around
//! the library fetches, posts and sleeps; which messages are processed in
//! what order, which notifications are suppressed, and when the cursor moves
//! are decided and proved here.
//!
//! The unsubscribe step is a best-effort heuristic: when batches arrive out
//! of order, a stale team-review request may still unsubscribe a pull request
//! whose newer direct mention was already classified. That risk is inherited
//! deliberately and not reordered away.

use crate::github::IssueInfo;
use crate::notif::{NotifDetail, NotifDetailV, Notification};
use crate::slack::{ConvHistoryParams, Message, MessageV};
use crate::store::{State, StateV};
use vstd::prelude::*;

verus! {

/// The parameters of the next fetch: the watched channel, and the persisted
/// watermark as the exclusive lower timestamp bound.
pub fn fetch_params<'a>(channel: &'a str, state: &'a State) -> (p: ConvHistoryParams<'a>)
    ensures
        p.channel@ == channel@,
        p.oldest_ts@ == state@.last_ts,
{
    ConvHistoryParams { channel, oldest_ts: &state.last_ts }
}

/// Reverses a fetched batch: the source returns newest first, and delivery
/// must run oldest first to preserve causal order.
pub fn order_oldest_first(messages: Vec<Message>) -> (r: Vec<Message>)
    ensures
        r.deep_view() == messages.deep_view().reverse(),
{
    let ghost all = messages.deep_view();
    let mut msgs = messages;
    let mut out: Vec<Message> = Vec::new();
    let total = msgs.len();
    while msgs.len() > 0
        invariant
            msgs.len() + out.len() == total,
            total == all.len(),
            msgs.deep_view() =~~= all.take(msgs.len() as int),
            forall|j: int| 0 <= j < out.len() ==> #[trigger] out.deep_view()[j] == all[total - 1 - j],
        decreases msgs.len(),
    {
        let ghost pre = msgs.deep_view();
        let ghost pre_out = out.deep_view();
        let m = msgs.pop().unwrap();
        out.push(m);
        proof {
            assert(m.deep_view() == pre[pre.len() - 1]);
            assert(msgs.deep_view() =~~= pre.drop_last());
            assert(pre.drop_last() =~~= all.take(msgs.len() as int));
            assert forall|j: int|
                0 <= j < out.len() implies #[trigger] out.deep_view()[j] == all[total - 1 - j] by {
                if j < pre_out.len() {
                    assert(out.deep_view()[j] == pre_out[j]);
                } else {
                    assert(out.deep_view()[j] == m.deep_view());
                    assert(pre[pre.len() - 1] == all[total - 1 - j]);
                }
            }
        }
    }
    proof {
        assert(out.deep_view() =~~= all.reverse());
    }
    out
}

/// The timestamp the cursor moves to after this batch: that of its last
/// message in oldest-first order, the newest of the batch.
pub fn batch_last_ts(oldest_first: &Vec<Message>) -> (r: Option<String>)
    ensures
        match r {
            Some(ts) => oldest_first.len() > 0 && ts@ == oldest_first.deep_view().last().ts,
            None => oldest_first.len() == 0,
        },
{
    let n = oldest_first.len();
    if n == 0 {
        return None;
    }
    Some(oldest_first[n - 1].ts.clone())
}

/// The team-review notifications of a batch: their positions and the pull
/// requests to try to unsubscribe from, in batch order.
pub open spec fn team_targets(notifs: Seq<NotifDetailV>) -> Seq<(int, crate::github::IssueInfoV)>
    decreases notifs.len(),
{
    if notifs.len() == 0 {
        Seq::empty()
    } else {
        let rest = team_targets(notifs.drop_last());
        match notifs.last() {
            NotifDetailV::TeamReviewRequested { pr, .. } => rest.push(
                ((notifs.len() - 1) as int, pr),
            ),
            _ => rest,
        }
    }
}

/// Collects the unsubscribe targets of a batch; the rule is `team_targets`.
#[verifier::loop_isolation(false)]
pub fn unsubscribe_targets(notifs: &Vec<Notification>) -> (r: Vec<(usize, IssueInfo)>)
    ensures
        r.len() == team_targets(notifs.deep_view()).len(),
        forall|k: int|
            0 <= k < r.len() ==> (#[trigger] r@[k]).0 as int == team_targets(
                notifs.deep_view(),
            )[k].0 && r@[k].1@ == team_targets(notifs.deep_view())[k].1,
        forall|k: int| 0 <= k < r.len() ==> (#[trigger] r@[k]).0 < notifs.len(),
{
    let mut out: Vec<(usize, IssueInfo)> = Vec::new();
    let n = notifs.len();
    for i in 0..n
        invariant
            n == notifs.len(),
            out.len() == team_targets(notifs.deep_view().take(i as int)).len(),
            forall|k: int|
                0 <= k < out.len() ==> (#[trigger] out@[k]).0 as int == team_targets(
                    notifs.deep_view().take(i as int),
                )[k].0 && out@[k].1@ == team_targets(notifs.deep_view().take(i as int))[k].1,
            forall|k: int| 0 <= k < out.len() ==> (#[trigger] out@[k]).0 < i,
    {
        proof {
            assert(notifs.deep_view().take(i + 1).drop_last() =~= notifs.deep_view().take(i as int));
            assert(notifs.deep_view().take(i + 1).last() == notifs.deep_view()[i as int]);
        }
        match &notifs[i].detail {
            NotifDetail::TeamReviewRequested { pr, .. } => {
                out.push((i, pr.duplicate()));
            },
            _ => {},
        }
    }
    assert(notifs.deep_view().take(n as int) =~= notifs.deep_view());
    out
}

/// The suppression flags of a batch: position `i` is suppressed exactly when
/// some target `k` names it and the unsubscribe of target `k` succeeded.
/// Targets beyond the end of `results` (an aborted unsubscribe pass) count as
/// not unsubscribed.
pub open spec fn suppression_spec(
    n: int,
    targets: Seq<(usize, crate::github::IssueInfoV)>,
    results: Seq<bool>,
    i: int,
) -> bool {
    exists|k: int|
        0 <= k < targets.len() && k < results.len() && (#[trigger] targets[k]).0 == i && results[k]
}

/// Builds the suppression flags; the rule is `suppression_spec`.
#[verifier::loop_isolation(false)]
pub fn suppression_flags(n: usize, targets: &Vec<(usize, IssueInfo)>, results: &Vec<bool>) -> (r:
    Vec<bool>)
    requires
        forall|k: int| 0 <= k < targets.len() ==> (#[trigger] targets@[k]).0 < n,
    ensures
        r.len() == n,
        forall|i: int|
            0 <= i < n ==> #[trigger] r@[i] == suppression_spec(
                n as int,
                targets.deep_view(),
                results@,
                i,
            ),
{
    let mut flags: Vec<bool> = Vec::new();
    let mut i: usize = 0;
    while i < n
        invariant
            i <= n,
            flags.len() == i,
            forall|j: int| 0 <= j < i ==> !(#[trigger] flags@[j]),
        decreases n - i,
    {
        flags.push(false);
        i = i + 1;
    }
    let tn = targets.len();
    let mut k: usize = 0;
    while k < tn
        invariant
            tn == targets.len(),
            k <= tn,
            flags.len() == n,
            forall|kk: int| 0 <= kk < targets.len() ==> (#[trigger] targets@[kk]).0 < n,
            forall|i2: int|
                0 <= i2 < n ==> #[trigger] flags@[i2] == exists|kk: int|
                    0 <= kk < k && kk < results.len() && (#[trigger] targets.deep_view()[kk]).0
                        == i2 && results@[kk],
        decreases tn - k,
    {
        let ghost pre = flags@;
        if k < results.len() && results[k] {
            let idx = targets[k].0;
            flags.set(idx, true);
            proof {
                assert forall|i2: int| 0 <= i2 < n implies #[trigger] flags@[i2] == exists|kk: int|
                    0 <= kk < k + 1 && kk < results.len() && (#[trigger] targets.deep_view()[kk]).0
                        == i2 && results@[kk] by {
                    if i2 == idx {
                        assert(targets.deep_view()[k as int].0 == i2 && results@[k as int]);
                    } else {
                        assert(flags@[i2] == pre[i2]);
                        assert forall|kk: int|
                            0 <= kk < k + 1 && kk < results.len() && (
                            #[trigger] targets.deep_view()[kk]).0 == i2 && results@[kk] implies kk
                            < k by {}
                    }
                }
            }
        } else {
            proof {
                assert forall|i2: int| 0 <= i2 < n implies #[trigger] flags@[i2] == exists|kk: int|
                    0 <= kk < k + 1 && kk < results.len() && (#[trigger] targets.deep_view()[kk]).0
                        == i2 && results@[kk] by {
                    assert forall|kk: int|
                        0 <= kk < k + 1 && kk < results.len() && (
                        #[trigger] targets.deep_view()[kk]).0 == i2 && results@[kk] implies kk
                        < k by {}
                }
            }
        }
        k = k + 1;
    }
    proof {
        assert forall|i2: int| 0 <= i2 < n implies #[trigger] flags@[i2] == suppression_spec(
            n as int,
            targets.deep_view(),
            results@,
            i2,
        ) by {}
    }
    flags
}

/// A batch with its flagged positions removed, order kept.
pub open spec fn filter_unsuppressed(notifs: Seq<NotifDetailV>, flags: Seq<bool>) -> Seq<
    NotifDetailV,
>
    decreases notifs.len(),
{
    if notifs.len() == 0 {
        Seq::empty()
    } else {
        let rest = filter_unsuppressed(notifs.drop_last(), flags);
        let i = notifs.len() - 1;
        if i < flags.len() && flags[i as int] {
            rest
        } else {
            rest.push(notifs.last())
        }
    }
}

/// Keeps the unsuppressed notifications of a batch, in order; the rule is
/// `filter_unsuppressed`.
#[verifier::loop_isolation(false)]
pub fn select_unsuppressed(notifs: Vec<Notification>, flags: &Vec<bool>) -> (r: Vec<Notification>)
    ensures
        r.deep_view() == filter_unsuppressed(notifs.deep_view(), flags@),
{
    let ghost all = notifs.deep_view();
    let mut rest = notifs;
    let mut out: Vec<Notification> = Vec::new();
    let total = rest.len();
    let mut i: usize = 0;
    while rest.len() > 0
        invariant
            i + rest.len() == total,
            total == all.len(),
            rest.deep_view() =~~= all.skip(i as int),
            out.deep_view() =~~= filter_unsuppressed(all.take(i as int), flags@),
        decreases rest.len(),
    {
        let ghost pre = rest.deep_view();
        let n = rest.remove(0);
        proof {
            assert(n.deep_view() == pre[0]);
            assert(pre[0] == all[i as int]);
            assert(rest.deep_view() =~~= pre.drop_first());
            assert(pre.drop_first() =~~= all.skip(i + 1));
            assert(all.take(i + 1).drop_last() =~= all.take(i as int));
            assert(all.take(i + 1).last() == all[i as int]);
        }
        let suppressed = i < flags.len() && flags[i];
        if !suppressed {
            let ghost pre_out = out.deep_view();
            out.push(n);
            proof {
                assert(out.deep_view() =~~= pre_out.push(all[i as int]));
            }
        }
        i = i + 1;
    }
    assert(all.take(i as int) =~= all);
    out
}

/// One sequence is the other with some elements left out, order kept.
pub open spec fn is_subsequence<T>(a: Seq<T>, b: Seq<T>) -> bool
    decreases b.len(),
{
    if a.len() == 0 {
        true
    } else if b.len() == 0 {
        false
    } else if a.last() == b.last() {
        is_subsequence(a.drop_last(), b.drop_last())
    } else {
        is_subsequence(a, b.drop_last())
    }
}

/// Appending one more element to the right keeps a subsequence a
/// subsequence of the longer sequence.
proof fn lemma_subsequence_extend<T>(a: Seq<T>, b: Seq<T>)
    requires
        is_subsequence(a, b.drop_last()),
        b.len() > 0,
    ensures
        is_subsequence(a, b),
    decreases b.len(), 0int,
{
    if a.len() == 0 {
    } else if a.last() == b.last() {
        lemma_subsequence_drop(a, b.drop_last());
    } else {
    }
}

/// A subsequence stays one when its own last element is dropped.
proof fn lemma_subsequence_drop<T>(a: Seq<T>, b: Seq<T>)
    requires
        is_subsequence(a, b),
        a.len() > 0,
    ensures
        is_subsequence(a.drop_last(), b),
    decreases b.len(), 1int,
{
    if b.len() == 0 {
    } else if a.last() == b.last() {
        if a.drop_last().len() == 0 {
            assert(is_subsequence(a.drop_last(), b));
        } else {
            lemma_subsequence_extend(a.drop_last(), b);
        }
    } else {
        lemma_subsequence_drop(a, b.drop_last());
        lemma_subsequence_extend(a.drop_last(), b);
    }
}

/// What is sent is the batch with the suppressed entries simply omitted:
/// a subsequence of the classified notifications, order otherwise preserved.
pub proof fn lemma_send_order(notifs: Seq<NotifDetailV>, flags: Seq<bool>)
    ensures
        is_subsequence(filter_unsuppressed(notifs, flags), notifs),
    decreases notifs.len(),
{
    if notifs.len() == 0 {
    } else {
        lemma_send_order(notifs.drop_last(), flags);
        let i = notifs.len() - 1;
        if i < flags.len() && flags[i as int] {
            lemma_subsequence_extend(filter_unsuppressed(notifs, flags), notifs);
        } else {
            let a = filter_unsuppressed(notifs, flags);
            assert(a == filter_unsuppressed(notifs.drop_last(), flags).push(notifs.last()));
            assert(a.drop_last() =~= filter_unsuppressed(notifs.drop_last(), flags));
            assert(a.last() == notifs.last());
        }
    }
}

/// Where the cursor moves: to the batch's newest timestamp when the whole
/// cycle completed, and nowhere otherwise — an aborted cycle persists
/// nothing, so a retry resends the entire batch. The source hands out only
/// messages strictly newer than the watermark, so across successful cycles
/// the cursor never moves backwards.
pub open spec fn conclude_spec(state: StateV, batch_ts: Option<Seq<char>>, completed: bool) -> StateV {
    match batch_ts {
        Some(ts) => if completed {
            StateV { last_ts: ts }
        } else {
            state
        },
        None => state,
    }
}

/// Moves the cursor after a cycle; the rule is `conclude_spec`.
pub fn conclude_cycle(state: State, batch_ts: Option<String>, completed: bool) -> (r: State)
    ensures
        r@ == conclude_spec(state@, batch_ts.deep_view(), completed),
{
    match batch_ts {
        Some(ts) => if completed {
            State { last_ts: ts }
        } else {
            state
        },
        None => state,
    }
}

/// After a successful cycle over a batch whose newest message carries `ts`,
/// the cursor is exactly `ts`, and the next fetch asks for strictly newer
/// messages by handing `ts` as its exclusive lower bound.
pub proof fn lemma_cursor_round_trip(state: StateV, msgs_newest_first: Seq<MessageV>)
    requires
        msgs_newest_first.len() > 0,
    ensures
        ({
            let oldest_first = msgs_newest_first.reverse();
            let next = conclude_spec(state, Some(oldest_first.last().ts), true);
            next.last_ts == msgs_newest_first[0].ts
        }),
{
    assert(msgs_newest_first.reverse().last() == msgs_newest_first[0]);
}

/// At-least-once delivery: an attempt that aborts mid-batch leaves the
/// cursor untouched, so the retry runs over the same batch from the same
/// watermark; only the attempt that completes moves the cursor, and it moves
/// it once, to the batch's newest timestamp.
pub proof fn lemma_at_least_once(state: StateV, batch_ts: Seq<char>)
    ensures
        conclude_spec(state, Some(batch_ts), false) == state,
        conclude_spec(conclude_spec(state, Some(batch_ts), false), Some(batch_ts), true).last_ts
            == batch_ts,
{
}

} // verus!
