//! Properties of the runtime that span several of its operations.

use vstd::prelude::*;
use crate::message::{DeliveryOutcome, RawMessageView, raw_from, raw_id};
use crate::health::{HealthState, health_body};
use crate::providers::{Detection, HttpOutcome, detected_platform, openclaw_result, webhook_result};
use crate::receiver::{acked, admits, delivered, from_other, poll_delay, poll_run, poll_step, retried};
use crate::seen::{SEEN_LIMIT, dedup, pruned, restored, without};
use crate::sse::{
    StreamActionView, data_field, message_seen_after, stream_admits, event_field, message_action_of, newline_at, protocol_run,
    protocol_step, split_lines, starts_with, lemma_newline_at_bounds,
};
use crate::wire::decoded_ids;

verus! {

/// A message the poll receiver has taken in is not taken in again while its
/// id stays in the seen set.
pub proof fn lemma_no_second_intake(seen: Seq<Seq<char>>, agent: Seq<char>, r: RawMessageView)
    requires
        admits(seen, agent, r),
    ensures
        !admits(seen.push(raw_id(r)), agent, r),
{
    assert(seen.push(raw_id(r))[seen.len() as int] == raw_id(r));
}

/// A message the agent sent itself is never delivered to it, neither by
/// polling nor from the event stream.
pub proof fn lemma_own_messages_ignored(seen: Seq<Seq<char>>, agent: Seq<char>, r: RawMessageView)
    requires
        raw_from(r) == agent,
    ensures
        !admits(seen, agent, r),
        message_action_of(seen, Some(r), agent) == StreamActionView::Ignore,
{
}

/// A message whose delivery is to be retried is taken in again by the next
/// cycle: removing its id restores the seen set it was taken in from.
pub proof fn lemma_retry_offers_again(seen: Seq<Seq<char>>, agent: Seq<char>, r: RawMessageView)
    requires
        seen.no_duplicates(),
        admits(seen, agent, r),
    ensures
        without(seen.push(raw_id(r)), raw_id(r)) == seen,
        admits(without(seen.push(raw_id(r)), raw_id(r)), agent, r),
{
    let s2 = seen.push(raw_id(r));
    let id = raw_id(r);
    assert(s2[seen.len() as int] == id);
    let k = s2.index_of(id);
    assert(s2.contains(id));
    assert(0 <= k < s2.len() && s2[k] == id);
    if k < seen.len() {
        assert(seen[k] == id);
        assert(seen.contains(id));
    }
    assert(k == seen.len());
    assert(s2.remove(k) =~= seen);
}

/// Every delivery attempt ends in exactly one of two ways: the message is
/// acknowledged (delivered or permanently failed), or it is offered again.
pub proof fn lemma_acked_or_offered_again(outcome: DeliveryOutcome)
    ensures
        acked(outcome) != retried(outcome),
        delivered(outcome) ==> acked(outcome),
{
}

proof fn lemma_dedup_props(s: Seq<Seq<char>>)
    ensures
        dedup(s).no_duplicates(),
        forall|x: Seq<char>| dedup(s).contains(x) <==> s.contains(x),
        s.no_duplicates() ==> dedup(s) == s,
    decreases s.len(),
{
    if s.len() > 0 {
        let p = s.drop_last();
        lemma_dedup_props(p);
        let d = dedup(p);
        assert forall|x: Seq<char>| s.contains(x) <==> (p.contains(x) || x == s.last()) by {
            if s.contains(x) {
                let i = choose|i: int| 0 <= i < s.len() && s[i] == x;
                if i < s.len() - 1 {
                    assert(p[i] == x);
                }
            }
            if p.contains(x) {
                let i = choose|i: int| 0 <= i < p.len() && p[i] == x;
                assert(s[i] == x);
            }
            if x == s.last() {
                assert(s[s.len() - 1] == x);
            }
        }
        if !d.contains(s.last()) {
            let e = d.push(s.last());
            assert forall|x: Seq<char>| e.contains(x) <==> (d.contains(x) || x == s.last()) by {
                if e.contains(x) {
                    let i = choose|i: int| 0 <= i < e.len() && e[i] == x;
                    if i < d.len() {
                        assert(d[i] == x);
                    }
                }
                if d.contains(x) {
                    let i = choose|i: int| 0 <= i < d.len() && d[i] == x;
                    assert(e[i] == x);
                }
                if x == s.last() {
                    assert(e[d.len() as int] == x);
                }
            }
            assert forall|i: int, j: int| 0 <= i < e.len() && 0 <= j < e.len() && i != j implies e[i] != e[j] by {
                if i < d.len() && j < d.len() {
                } else if i < d.len() {
                    assert(d.contains(d[i]));
                } else if j < d.len() {
                    assert(d.contains(d[j]));
                }
            }
        }
        if s.no_duplicates() {
            assert(p.no_duplicates());
            assert(!p.contains(s.last())) by {
                if p.contains(s.last()) {
                    let i = choose|i: int| 0 <= i < p.len() && p[i] == s.last();
                    assert(s[i] == s[s.len() - 1]);
                }
            }
            assert(s =~= p.push(s.last()));
        }
    }
}

/// Saving the seen set and restoring it gives back the pruned set: the ids
/// the runtime keeps survive a restart, in the same order.
pub proof fn lemma_restore_after_persist(s: Seq<Seq<char>>, saved: Seq<char>)
    requires
        s.no_duplicates(),
        decoded_ids(saved) == Some(pruned(s)),
    ensures
        restored(Some(saved)) == pruned(s),
{
    let p = pruned(s);
    if s.len() > SEEN_LIMIT {
        let off = s.len() - SEEN_LIMIT;
        assert forall|i: int, j: int| 0 <= i < p.len() && 0 <= j < p.len() && i != j implies p[i] != p[j] by {
            assert(p[i] == s[i + off]);
            assert(p[j] == s[j + off]);
        }
    }
    lemma_dedup_props(p);
}

/// The saved set never holds more than `SEEN_LIMIT` ids, and they are the
/// most recent ones: pruning drops only the oldest.
pub proof fn lemma_prune_keeps_recent(s: Seq<Seq<char>>)
    ensures
        pruned(s).len() == (if s.len() > SEEN_LIMIT { SEEN_LIMIT as nat } else { s.len() }),
        forall|i: int| 0 <= i < pruned(s).len() ==> pruned(s)[i] == s[s.len() - pruned(s).len() + i],
{
}

/// After a failed poll the receiver waits at least 30 s, never more than
/// 120 s, and never less than after fewer failures.
pub proof fn lemma_backoff_grows(a: u32, b: u32, interval_secs: u64)
    requires
        1 <= a <= b,
    ensures
        30 <= poll_delay(a, interval_secs) <= poll_delay(b, interval_secs) <= 120,
        poll_delay(0, interval_secs) == interval_secs,
{
}

/// The webhook and OpenClaw providers reach the same verdict on the same
/// HTTP exchange; only their reasons are worded differently.
pub proof fn lemma_providers_agree(o: HttpOutcome)
    ensures
        (webhook_result(o) is Delivered) == (openclaw_result(o) is Delivered),
        (webhook_result(o) is Retry) == (openclaw_result(o) is Retry),
        (webhook_result(o) is Failed) == (openclaw_result(o) is Failed),
{
}

/// No line of a split text holds a line feed.
pub proof fn lemma_lines_have_no_newline(s: Seq<char>)
    ensures
        forall|i: int, j: int|
            0 <= i < split_lines(s).len() && 0 <= j < split_lines(s)[i].len() ==> split_lines(s)[i][j] != '\n',
    decreases s.len(),
{
    if s.len() > 0 {
        lemma_newline_at_bounds(s);
        let k = newline_at(s);
        if k >= 0 {
            lemma_lines_have_no_newline(s.skip(k + 1));
            let first = crate::sse::strip_cr(s.take(k));
            assert forall|j: int| 0 <= j < first.len() implies first[j] != '\n' by {
                assert(first[j] == s[j]);
            }
            let rest = split_lines(s.skip(k + 1));
            assert forall|i: int, j: int|
                0 <= i < split_lines(s).len() && 0 <= j < split_lines(s)[i].len() implies split_lines(s)[i][j] != '\n' by {
                if i == 0 {
                    assert(split_lines(s)[0] == first);
                } else {
                    assert(split_lines(s)[i] == rest[i - 1]);
                }
            }
        }
    }
}

/// How many of `lines` are `data: ` lines.
pub open spec fn data_line_count(lines: Seq<Seq<char>>) -> nat
    decreases lines.len(),
{
    if lines.len() == 0 {
        0
    } else {
        data_line_count(lines.drop_last()) + if starts_with(lines.last(), data_field()) {
            1nat
        } else {
            0
        }
    }
}

/// Every `data: ` line completes exactly one event and nothing else does;
/// after a `data: ` line no event type is pending.
pub proof fn lemma_one_event_per_data_line(pending: Seq<char>, lines: Seq<Seq<char>>)
    ensures
        protocol_run(pending, lines).1.len() == data_line_count(lines),
        lines.len() > 0 && starts_with(lines.last(), data_field()) ==> protocol_run(pending, lines).0.len() == 0,
    decreases lines.len(),
{
    if lines.len() > 0 {
        lemma_one_event_per_data_line(pending, lines.drop_last());
        let l = lines.last();
        if starts_with(l, event_field()) && starts_with(l, data_field()) {
            assert(l.take(7)[0] == event_field()[0]);
            assert(l.take(6)[0] == data_field()[0]);
        }
    }
}

proof fn lemma_without_keeps(s: Seq<Seq<char>>, y: Seq<char>)
    requires
        s.no_duplicates(),
    ensures
        without(s, y).no_duplicates(),
        forall|x: Seq<char>| x != y ==> (without(s, y).contains(x) <==> s.contains(x)),
{
    if s.contains(y) {
        let k = s.index_of(y);
        assert(0 <= k < s.len() && s[k] == y);
        let t = s.remove(k);
        assert forall|a: int, b: int| 0 <= a < t.len() && 0 <= b < t.len() && a != b implies t[a] != t[b] by {
            let a2 = if a < k { a } else { a + 1 };
            let b2 = if b < k { b } else { b + 1 };
            assert(t[a] == s[a2]);
            assert(t[b] == s[b2]);
        }
        assert forall|x: Seq<char>| x != y implies (t.contains(x) <==> s.contains(x)) by {
            if t.contains(x) {
                let i = choose|i: int| 0 <= i < t.len() && t[i] == x;
                let i2 = if i < k { i } else { i + 1 };
                assert(s[i2] == x);
            }
            if s.contains(x) {
                let i = choose|i: int| 0 <= i < s.len() && s[i] == x;
                assert(i != k);
                let i2 = if i < k { i } else { i - 1 };
                assert(t[i2] == x);
            }
        }
    }
}

proof fn lemma_push_fresh(s: Seq<Seq<char>>, y: Seq<char>)
    requires
        s.no_duplicates(),
        !s.contains(y),
    ensures
        s.push(y).no_duplicates(),
        s.push(y).contains(y),
        forall|x: Seq<char>| s.contains(x) ==> s.push(y).contains(x),
{
    let t = s.push(y);
    assert(t[s.len() as int] == y);
    assert forall|a: int, b: int| 0 <= a < t.len() && 0 <= b < t.len() && a != b implies t[a] != t[b] by {
        if a < s.len() && b < s.len() {
        } else if a < s.len() {
            assert(s.contains(t[a]));
        } else if b < s.len() {
            assert(s.contains(t[b]));
        }
    }
    assert forall|x: Seq<char>| s.contains(x) implies t.contains(x) by {
        let i = choose|i: int| 0 <= i < s.len() && s[i] == x;
        assert(t[i] == x);
    }
}

/// One poll step keeps the seen set free of repeats and keeps every id
/// that was already in it.
pub proof fn lemma_poll_step_keeps(seen: Seq<Seq<char>>, agent: Seq<char>, r: RawMessageView, o: DeliveryOutcome)
    requires
        seen.no_duplicates(),
    ensures
        poll_step(seen, agent, r, o).no_duplicates(),
        forall|x: Seq<char>| seen.contains(x) ==> poll_step(seen, agent, r, o).contains(x),
{
    if admits(seen, agent, r) {
        let id = raw_id(r);
        lemma_push_fresh(seen, id);
        if retried(o) {
            lemma_without_keeps(seen.push(id), id);
            assert forall|x: Seq<char>| seen.contains(x) implies poll_step(seen, agent, r, o).contains(x) by {
                assert(x != id);
            }
        }
    }
}

/// A run of poll steps keeps the seen set free of repeats and keeps every
/// id that was already in it.
pub proof fn lemma_poll_run_keeps(seen: Seq<Seq<char>>, agent: Seq<char>, steps: Seq<(RawMessageView, DeliveryOutcome)>)
    requires
        seen.no_duplicates(),
    ensures
        poll_run(seen, agent, steps).no_duplicates(),
        forall|x: Seq<char>| seen.contains(x) ==> poll_run(seen, agent, steps).contains(x),
    decreases steps.len(),
{
    if steps.len() > 0 {
        lemma_poll_run_keeps(seen, agent, steps.drop_last());
        lemma_poll_step_keeps(poll_run(seen, agent, steps.drop_last()), agent, steps.last().0, steps.last().1);
    }
}

/// Running two sequences of steps one after the other is running their concatenation.
pub proof fn lemma_poll_run_concat(
    seen: Seq<Seq<char>>,
    agent: Seq<char>,
    a: Seq<(RawMessageView, DeliveryOutcome)>,
    b: Seq<(RawMessageView, DeliveryOutcome)>,
)
    ensures
        poll_run(seen, agent, a + b) == poll_run(poll_run(seen, agent, a), agent, b),
    decreases b.len(),
{
    if b.len() == 0 {
        assert(a + b =~= a);
    } else {
        assert((a + b).drop_last() =~= a + b.drop_last());
        assert((a + b).last() == b.last());
        lemma_poll_run_concat(seen, agent, a, b.drop_last());
    }
}

proof fn lemma_id_kept_after(
    seen: Seq<Seq<char>>,
    agent: Seq<char>,
    steps: Seq<(RawMessageView, DeliveryOutcome)>,
    i: int,
    j: int,
)
    requires
        seen.no_duplicates(),
        0 <= i < j <= steps.len(),
        admits(poll_run(seen, agent, steps.take(i)), agent, steps[i].0),
        !retried(steps[i].1),
    ensures
        poll_run(seen, agent, steps.take(j)).contains(raw_id(steps[i].0)),
        poll_run(seen, agent, steps.take(j)).no_duplicates(),
{
    let id = raw_id(steps[i].0);
    let si = poll_run(seen, agent, steps.take(i));
    lemma_poll_run_keeps(seen, agent, steps.take(i));
    assert(steps.take(i + 1).drop_last() =~= steps.take(i));
    assert(steps.take(i + 1).last() == steps[i]);
    let s1 = poll_run(seen, agent, steps.take(i + 1));
    assert(s1 == si.push(id));
    lemma_push_fresh(si, id);
    let rest = steps.subrange(i + 1, j);
    assert(steps.take(j) =~= steps.take(i + 1) + rest);
    lemma_poll_run_concat(seen, agent, steps.take(i + 1), rest);
    lemma_poll_run_keeps(s1, agent, rest);
}

/// Polling never takes the same message in twice: once a message has been
/// taken in and its delivery was not to be retried, no later step of the
/// run takes in a message with the same id.
pub proof fn lemma_never_twice(
    seen: Seq<Seq<char>>,
    agent: Seq<char>,
    steps: Seq<(RawMessageView, DeliveryOutcome)>,
    i: int,
    j: int,
)
    requires
        seen.no_duplicates(),
        0 <= i < j < steps.len(),
        admits(poll_run(seen, agent, steps.take(i)), agent, steps[i].0),
        !retried(steps[i].1),
        raw_id(steps[j].0) == raw_id(steps[i].0),
    ensures
        !admits(poll_run(seen, agent, steps.take(j)), agent, steps[j].0),
{
    lemma_id_kept_after(seen, agent, steps, i, j);
}

/// The same across two poll cycles with a save and a restore in between:
/// while the first cycle leaves at most `SEEN_LIMIT` ids, a message it took
/// in and did not retry is taken in by no step of the second cycle.
pub proof fn lemma_never_twice_across_cycles(
    seen: Seq<Seq<char>>,
    agent: Seq<char>,
    first: Seq<(RawMessageView, DeliveryOutcome)>,
    saved: Seq<char>,
    second: Seq<(RawMessageView, DeliveryOutcome)>,
    i: int,
    j: int,
)
    requires
        seen.no_duplicates(),
        0 <= i < first.len(),
        admits(poll_run(seen, agent, first.take(i)), agent, first[i].0),
        !retried(first[i].1),
        poll_run(seen, agent, first).len() <= SEEN_LIMIT,
        decoded_ids(saved) == Some(pruned(poll_run(seen, agent, first))),
        0 <= j < second.len(),
        raw_id(second[j].0) == raw_id(first[i].0),
    ensures
        !admits(poll_run(restored(Some(saved)), agent, second.take(j)), agent, second[j].0),
{
    lemma_id_kept_after(seen, agent, first, i, first.len() as int);
    assert(first.take(first.len() as int) =~= first);
    let s1 = poll_run(seen, agent, first);
    lemma_restore_after_persist(s1, saved);
    assert(pruned(s1) == s1);
    lemma_poll_run_keeps(s1, agent, second.take(j));
}

/// The event stream does not take the same message in twice: after a
/// message with an id is taken in, the same message is ignored.
pub proof fn lemma_stream_never_twice(seen: Seq<Seq<char>>, agent: Seq<char>, r: RawMessageView)
    requires
        stream_admits(seen, agent, r),
        raw_id(r).len() > 0,
    ensures
        message_action_of(message_seen_after(seen, Some(r), agent), Some(r), agent) == StreamActionView::Ignore,
{
    assert(seen.push(raw_id(r))[seen.len() as int] == raw_id(r));
}

/// Poll admission depends only on the sender, the id and the seen set: a
/// message from another agent, with an id that has not been seen, is taken
/// in whatever its other members (content, content type, ...) are, and two
/// messages that agree on sender and id are admitted alike.
pub proof fn lemma_admission_by_sender_and_id(
    seen: Seq<Seq<char>>,
    agent: Seq<char>,
    r: RawMessageView,
    r2: RawMessageView,
)
    ensures
        raw_from(r) != agent && raw_from(r).len() > 0 && raw_id(r).len() > 0 && !seen.contains(raw_id(r))
            ==> admits(seen, agent, r),
        admits(seen, agent, r) ==> raw_from(r) != agent && raw_from(r).len() > 0 && raw_id(r).len() > 0
            && !seen.contains(raw_id(r)),
        r2.id == r.id && r2.from_agent_id == r.from_agent_id ==> admits(seen, agent, r) == admits(seen, agent, r2),
{
}

/// In the event-stream protocol only `event: ` lines set the pending event
/// type and only `data: ` lines complete an event (of the pending type) and
/// clear it; every other line leaves the pending type as it is and
/// completes nothing.
pub proof fn lemma_protocol_lines(pending: Seq<char>, line: Seq<char>)
    ensures
        !starts_with(line, event_field()) && !starts_with(line, data_field())
            ==> protocol_step(pending, line) == (pending, None::<(Seq<char>, Seq<char>)>),
        starts_with(line, event_field()) ==> protocol_step(pending, line) == (
            line.subrange(7, line.len() as int),
            None::<(Seq<char>, Seq<char>)>,
        ),
        starts_with(line, data_field()) ==> protocol_step(pending, line) == (
            Seq::<char>::empty(),
            Some((pending, line.subrange(6, line.len() as int))),
        ),
{
    if starts_with(line, event_field()) && starts_with(line, data_field()) {
        assert(line.take(7)[0] == event_field()[0]);
        assert(line.take(6)[0] == data_field()[0]);
    }
    if starts_with(line, event_field()) {
        assert(line.skip(7) =~= line.subrange(7, line.len() as int));
    }
    if starts_with(line, data_field()) {
        assert(line.skip(6) =~= line.subrange(6, line.len() as int));
    }
}

proof fn lemma_prefix_extends(x: Seq<char>, p: Seq<char>)
    requires
        starts_with(x, p),
    ensures
        forall|y: Seq<char>| #[trigger] starts_with(x + y, p),
{
    assert forall|y: Seq<char>| #[trigger] starts_with(x + y, p) by {
        assert((x + y).take(p.len() as int) =~= x.take(p.len() as int));
    }
}

/// The health report's status member is `healthy` exactly when the
/// connected flag is set and `degraded` otherwise, whatever the heartbeat
/// time and the clock say.
#[verifier::rlimit(50)]
pub proof fn lemma_status_follows_connected(h: HealthState, now: u64)
    ensures
        h.connected ==> starts_with(health_body(h, now), "{\"status\":\"healthy\""@),
        !h.connected ==> starts_with(health_body(h, now), "{\"status\":\"degraded\""@),
{
    reveal_strlit("{\"status\":\"");
    reveal_strlit("healthy");
    reveal_strlit("degraded");
    reveal_strlit("\",\"agentId\":");
    reveal_strlit("{\"status\":\"healthy\"");
    reveal_strlit("{\"status\":\"degraded\"");
    let lit = if h.connected { "{\"status\":\"healthy\""@ } else { "{\"status\":\"degraded\""@ };
    let head = "{\"status\":\""@ + (if h.connected { "healthy"@ } else { "degraded"@ }) + "\",\"agentId\":"@;
    assert(head.take(lit.len() as int) =~= lit);
    lemma_prefix_extends(head, lit);
    let x1 = head + crate::health::json_string(h.agent_id@);
    lemma_prefix_extends(x1, lit);
    let x2 = x1 + ",\"provider\":"@;
    lemma_prefix_extends(x2, lit);
    let x3 = x2 + crate::health::json_string(h.provider_name@);
    lemma_prefix_extends(x3, lit);
    let x4 = x3 + ",\"providerPort\":"@;
    lemma_prefix_extends(x4, lit);
    let x5 = x4 + crate::text::decimal(h.provider_port as nat);
    lemma_prefix_extends(x5, lit);
    let x6 = x5 + ",\"connected\":"@;
    lemma_prefix_extends(x6, lit);
    let x7 = x6 + crate::health::bool_text(h.connected);
    lemma_prefix_extends(x7, lit);
    let x8 = x7 + ",\"lastHeartbeat\":"@;
    lemma_prefix_extends(x8, lit);
    let x9 = x8 + crate::text::decimal(h.last_heartbeat as nat);
    lemma_prefix_extends(x9, lit);
    let x10 = x9 + ",\"heartbeatAgeSeconds\":"@;
    lemma_prefix_extends(x10, lit);
    let x11 = x10 + crate::text::decimal(crate::health::heartbeat_age(h, now));
    lemma_prefix_extends(x11, lit);
    let x12 = x11 + ",\"messagesReceived\":"@;
    lemma_prefix_extends(x12, lit);
    let x13 = x12 + crate::text::decimal(h.messages_received as nat);
    lemma_prefix_extends(x13, lit);
    let x14 = x13 + ",\"messagesDelivered\":"@;
    lemma_prefix_extends(x14, lit);
    let x15 = x14 + crate::text::decimal(h.messages_delivered as nat);
    lemma_prefix_extends(x15, lit);
    let x16 = x15 + ",\"hookDeliveries\":"@;
    lemma_prefix_extends(x16, lit);
    let x17 = x16 + crate::text::decimal(h.hook_deliveries as nat);
    lemma_prefix_extends(x17, lit);
    let x18 = x17 + ",\"hookDeliveryFailures\":"@;
    lemma_prefix_extends(x18, lit);
    let x19 = x18 + crate::text::decimal(h.hook_delivery_failures as nat);
    lemma_prefix_extends(x19, lit);
    let x20 = x19 + ",\"lastMessageId\":"@;
    lemma_prefix_extends(x20, lit);
    let x21 = x20 + crate::health::json_string(
        crate::message::text_or(crate::message::opt_text(h.last_message_id), Seq::empty()),
    );
    lemma_prefix_extends(x21, lit);
    let x22 = x21 + ",\"uptimeSeconds\":"@;
    lemma_prefix_extends(x22, lit);
    let x23 = x22 + crate::text::decimal(crate::health::uptime(h, now));
    lemma_prefix_extends(x23, lit);
    assert(health_body(h, now) == x23 + "}"@);
}

/// Both providers' verdicts by status code: 2xx is delivered, 5xx is
/// retried, and every other status (4xx among them) fails.
pub proof fn lemma_verdict_by_status(code: u16, text: String)
    ensures
        200 <= code < 300 ==> webhook_result(HttpOutcome::Status { code, text }) is Delivered
            && openclaw_result(HttpOutcome::Status { code, text }) is Delivered,
        500 <= code < 600 ==> webhook_result(HttpOutcome::Status { code, text }) is Retry
            && openclaw_result(HttpOutcome::Status { code, text }) is Retry,
        !(200 <= code < 300) && !(500 <= code < 600) ==> webhook_result(HttpOutcome::Status { code, text }) is Failed
            && openclaw_result(HttpOutcome::Status { code, text }) is Failed,
        400 <= code < 500 ==> webhook_result(HttpOutcome::Status { code, text }) is Failed
            && openclaw_result(HttpOutcome::Status { code, text }) is Failed,
{
}

/// A transport error is retried exactly when it is transient (a timeout or
/// a failure to connect), by both providers.
pub proof fn lemma_verdict_on_transport(transient: bool, text: String)
    ensures
        (webhook_result(HttpOutcome::Transport { transient, text }) is Retry) == transient,
        (openclaw_result(HttpOutcome::Transport { transient, text }) is Retry) == transient,
        (webhook_result(HttpOutcome::Transport { transient, text }) is Failed) == !transient,
        (openclaw_result(HttpOutcome::Transport { transient, text }) is Failed) == !transient,
{
}

/// Detection picks the first platform found in the fixed order OpenClaw,
/// Codex, Gemini, Copilot, OpenCode, whatever the later ones are; with
/// none found it is `stdout`.
pub proof fn lemma_detection_priority(d: Detection)
    ensures
        d.openclaw ==> detected_platform(d) == "openclaw"@,
        !d.openclaw && d.codex ==> detected_platform(d) == "codex"@,
        !d.openclaw && !d.codex && d.gemini ==> detected_platform(d) == "gemini"@,
        !d.openclaw && !d.codex && !d.gemini && d.copilot ==> detected_platform(d) == "copilot"@,
        !d.openclaw && !d.codex && !d.gemini && !d.copilot && d.opencode ==> detected_platform(d) == "opencode"@,
        !d.openclaw && !d.codex && !d.gemini && !d.copilot && !d.opencode ==> detected_platform(d) == "stdout"@,
{
}

} // verus!
