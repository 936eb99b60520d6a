//! The poll receiver: which messages of a peek batch are taken in, what is
//! done after each delivery attempt, and how long to wait between polls.

use vstd::prelude::*;
use crate::message::{
    DeliveryOutcome, DeliveryResult, Message, RawMessage, RawMessageView, empty_raw_view,
    message_of, raw_from, raw_id,
};
use crate::seen::{SeenSet, without};
use crate::wire::{decode_message, decode_peek_items, decoded_message, peek_items};

verus! {

/// A message is addressed to this agent by someone else: it names a sender,
/// and that sender is not the agent itself.
pub open spec fn from_other(agent: Seq<char>, r: RawMessageView) -> bool {
    raw_from(r) != agent && raw_from(r).len() > 0
}

/// The poll receiver takes a message in when it comes from another agent,
/// has an id, and that id has not been seen.
pub open spec fn admits(seen: Seq<Seq<char>>, agent: Seq<char>, r: RawMessageView) -> bool {
    &&& from_other(agent, r)
    &&& raw_id(r).len() > 0
    &&& !seen.contains(raw_id(r))
}

/// Whether an outcome is acknowledged to the API: a delivered message and a
/// permanently failed one are; a retried one (or one whose provider erred) is not.
pub open spec fn acked(outcome: DeliveryOutcome) -> bool {
    match outcome {
        Ok(DeliveryResult::Delivered) => true,
        Ok(DeliveryResult::Failed(_)) => true,
        _ => false,
    }
}

/// Whether an outcome asks for the message to be offered again.
pub open spec fn retried(outcome: DeliveryOutcome) -> bool {
    match outcome {
        Ok(DeliveryResult::Retry(_)) => true,
        Err(_) => true,
        _ => false,
    }
}

/// Whether the message reached the platform.
pub open spec fn delivered(outcome: DeliveryOutcome) -> bool {
    outcome matches Ok(DeliveryResult::Delivered)
}

/// What taking in the decoded message `r` and then booking the outcome `o`
/// of its delivery does to the seen set (`take_in` followed by `record`):
/// the id of a message taken in is added, and removed again when the
/// delivery is to be retried.
pub open spec fn poll_step(seen: Seq<Seq<char>>, agent: Seq<char>, r: RawMessageView, o: DeliveryOutcome) -> Seq<Seq<char>> {
    if admits(seen, agent, r) {
        if retried(o) {
            without(seen.push(raw_id(r)), raw_id(r))
        } else {
            seen.push(raw_id(r))
        }
    } else {
        seen
    }
}

/// The seen set after a sequence of poll steps (one cycle, or several with
/// nothing pruned in between).
pub open spec fn poll_run(seen: Seq<Seq<char>>, agent: Seq<char>, steps: Seq<(RawMessageView, DeliveryOutcome)>) -> Seq<Seq<char>>
    decreases steps.len(),
{
    if steps.len() == 0 {
        seen
    } else {
        poll_step(poll_run(seen, agent, steps.drop_last()), agent, steps.last().0, steps.last().1)
    }
}

/// The state of one poll cycle: the seen set, how many messages were
/// delivered, and which ids are to be acknowledged.
pub struct PollCycle {
    pub seen: SeenSet,
    pub delivered: usize,
    pub ack_ids: Vec<String>,
}

impl PollCycle {
    /// A cycle that starts from the seen set `seen`.
    pub fn start(seen: SeenSet) -> (c: PollCycle)
        ensures
            c.seen@ == seen@,
            c.delivered == 0,
            c.ack_ids@.len() == 0,
    {
        PollCycle { seen, delivered: 0, ack_ids: Vec::new() }
    }

    /// Decides whether the decoded message `raw` is taken in; if so, marks
    /// its id as seen and returns the message to deliver.
    pub fn take_in(&mut self, agent_id: &String, raw: &RawMessage) -> (m: Option<Message>)
        ensures
            m is Some <==> admits(old(self).seen@, agent_id@, raw@),
            m matches Some(msg) ==> msg@ == message_of(raw@),
            final(self).seen@ == (if m is Some { old(self).seen@.push(raw_id(raw@)) } else { old(self).seen@ }),
            final(self).delivered == old(self).delivered,
            final(self).ack_ids@ == old(self).ack_ids@,
    {
        let id = raw.id_or_empty();
        let from = raw.from_or_empty();
        if from == *agent_id || from.as_str().is_empty() || id.as_str().is_empty() {
            return None;
        }
        if self.seen.contains(&id) {
            return None;
        }
        self.seen.insert(id);
        Some(Message::from_raw(raw))
    }

    /// Books the outcome of delivering the message with id `msg_id`.
    pub fn record(&mut self, msg_id: &String, outcome: &DeliveryOutcome)
        requires
            old(self).delivered < usize::MAX,
        ensures
            final(self).delivered == old(self).delivered + (if delivered(*outcome) { 1int } else { 0 }),
            final(self).ack_ids.deep_view() == (if acked(*outcome) {
                old(self).ack_ids.deep_view().push(msg_id@)
            } else {
                old(self).ack_ids.deep_view()
            }),
            final(self).seen@ == (if retried(*outcome) { without(old(self).seen@, msg_id@) } else { old(self).seen@ }),
    {
        let ghost acks = self.ack_ids.deep_view();
        match outcome {
            Ok(DeliveryResult::Delivered) => {
                self.delivered = self.delivered + 1;
                self.ack_ids.push(msg_id.clone());
                assert(self.ack_ids.deep_view() =~= acks.push(msg_id@));
            },
            Ok(DeliveryResult::Failed(_)) => {
                self.ack_ids.push(msg_id.clone());
                assert(self.ack_ids.deep_view() =~= acks.push(msg_id@));
            },
            Ok(DeliveryResult::Retry(_)) => {
                self.seen.remove(msg_id);
            },
            Err(_) => {
                self.seen.remove(msg_id);
            },
        }
    }
}

/// The peek response was not JSON.
pub struct NotJson;

/// The messages of a peek response: `None` when the response has no
/// `data.messages` array or the array is empty; an item that is not a JSON
/// object stands for a message with no members.
pub open spec fn batch_of(items: Option<Seq<Seq<char>>>) -> Option<Seq<RawMessageView>> {
    match items {
        Some(its) => if its.len() == 0 {
            None
        } else {
            Some(its.map_values(|t: Seq<char>| raw_or_empty(decoded_message(t))))
        },
        None => None,
    }
}

/// A decoded message object, or one with no members when decoding failed.
pub open spec fn raw_or_empty(o: Option<RawMessageView>) -> RawMessageView {
    match o {
        Some(r) => r,
        None => empty_raw_view(),
    }
}

pub open spec fn opt_batch_view(b: Option<Vec<RawMessage>>) -> Option<Seq<RawMessageView>> {
    match b {
        Some(v) => Some(v@.map_values(|r: RawMessage| r@)),
        None => None,
    }
}

/// Decodes the messages of the peek response `body`; an error when the
/// body is not JSON.
pub fn poll_batch(body: &str) -> (b: Result<Option<Vec<RawMessage>>, NotJson>)
    ensures
        match peek_items(body@) {
            None => b is Err,
            Some(items) => b matches Ok(v) && opt_batch_view(v) == batch_of(items),
        },
{
    let items = match decode_peek_items(body) {
        Some(Some(items)) => items,
        Some(None) => return Ok(None),
        None => return Err(NotJson),
    };
    if items.len() == 0 {
        return Ok(None);
    }
    let ghost its = items.deep_view();
    let mut out: Vec<RawMessage> = Vec::new();
    let n = items.len();
    let mut i: usize = 0;
    while i < n
        invariant
            n == items@.len(),
            its == items.deep_view(),
            i <= n,
            out@.len() == i,
            forall|j: int| 0 <= j < i ==> #[trigger] out@[j]@ == raw_or_empty(decoded_message(its[j])),
        decreases n - i,
    {
        let raw = match decode_message(items[i].as_str()) {
            Some(r) => r,
            None => RawMessage::empty(),
        };
        out.push(raw);
        i = i + 1;
    }
    assert(out@.map_values(|r: RawMessage| r@) =~= its.map_values(
        |t: Seq<char>| raw_or_empty(decoded_message(t)),
    ));
    Ok(Some(out))
}

/// Seconds to wait before the next poll after `errors` failed polls in a
/// row: the configured interval after a success, then 30 s for up to five
/// failures, 60 s for up to ten, and 120 s beyond.
pub open spec fn poll_delay(errors: u32, interval_secs: u64) -> u64 {
    if errors == 0 {
        interval_secs
    } else if errors <= 5 {
        30
    } else if errors <= 10 {
        60
    } else {
        120
    }
}

/// Counts failed polls in a row and gives the wait before the next poll.
pub struct PollBackoff {
    pub consecutive_errors: u32,
}

impl PollBackoff {
    /// No failures yet.
    pub fn new() -> (b: PollBackoff)
        ensures
            b.consecutive_errors == 0,
    {
        PollBackoff { consecutive_errors: 0 }
    }

    /// A poll succeeded: the failure count starts over.
    pub fn on_success(&mut self)
        ensures
            final(self).consecutive_errors == 0,
    {
        self.consecutive_errors = 0;
    }

    /// A poll failed.
    pub fn on_error(&mut self)
        requires
            old(self).consecutive_errors < u32::MAX,
        ensures
            final(self).consecutive_errors == old(self).consecutive_errors + 1,
    {
        self.consecutive_errors = self.consecutive_errors + 1;
    }

    /// Seconds to wait before the next poll.
    pub fn delay_secs(&self, interval_secs: u64) -> (d: u64)
        ensures
            d == poll_delay(self.consecutive_errors, interval_secs),
    {
        if self.consecutive_errors == 0 {
            interval_secs
        } else if self.consecutive_errors <= 5 {
            30
        } else if self.consecutive_errors <= 10 {
            60
        } else {
            120
        }
    }
}

} // verus!
