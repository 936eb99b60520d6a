//! The server-sent-event stream: splitting received text into lines, the
//! `event:` / `data:` line protocol, and what each event asks the runtime to do.

use vstd::prelude::*;
use vstd::utf8::{decode_utf8, valid_utf8};
use crate::message::{
    DeliveryOutcome, DeliveryResult, Message, MessageView, RawMessage, RawMessageView, message_of,
    opt_raw_view, raw_id,
};
use crate::receiver::{delivered, from_other, retried};
use crate::seen::{SeenSet, without};
use crate::text::string_from_chars;
use crate::wire::{decode_message, decoded_message};

verus! {

/// Index of the first line feed in `s`, or -1 when there is none.
pub open spec fn newline_at(s: Seq<char>) -> int
    decreases s.len(),
{
    if s.len() == 0 {
        -1
    } else if s[0] == '\n' {
        0
    } else {
        let k = newline_at(s.drop_first());
        if k < 0 {
            -1
        } else {
            k + 1
        }
    }
}

/// Where the first line feed of a text can be.
pub proof fn lemma_newline_at_bounds(s: Seq<char>)
    ensures
        -1 <= newline_at(s) < s.len(),
        newline_at(s) >= 0 ==> s[newline_at(s)] == '\n',
        newline_at(s) < 0 ==> forall|i: int| 0 <= i < s.len() ==> s[i] != '\n',
        forall|i: int| 0 <= i < newline_at(s) ==> s[i] != '\n',
    decreases s.len(),
{
    if s.len() > 0 && s[0] != '\n' {
        lemma_newline_at_bounds(s.drop_first());
        assert forall|i: int| 0 < i < s.len() implies s[i] == s.drop_first()[i - 1] by {}
    }
}

/// `line` without one trailing carriage return.
pub open spec fn strip_cr(line: Seq<char>) -> Seq<char> {
    if line.len() > 0 && line.last() == '\r' {
        line.drop_last()
    } else {
        line
    }
}

/// The lines of `s` as `str::lines` gives them: split at each line feed,
/// a carriage return just before a line feed dropped, no line after a
/// final line feed.
pub open spec fn split_lines(s: Seq<char>) -> Seq<Seq<char>>
    decreases s.len(),
{
    if s.len() == 0 {
        Seq::empty()
    } else {
        let k = newline_at(s);
        if k < 0 {
            seq![s]
        } else {
            proof {
                lemma_newline_at_bounds(s);
            }
            seq![strip_cr(s.take(k))] + split_lines(s.skip(k + 1))
        }
    }
}

proof fn lemma_newline_after(t: Seq<char>, rest: Seq<char>)
    requires
        forall|i: int| 0 <= i < t.len() ==> t[i] != '\n',
        rest.len() > 0,
        rest[0] == '\n',
    ensures
        newline_at(t + rest) == t.len(),
    decreases t.len(),
{
    if t.len() > 0 {
        assert((t + rest).drop_first() =~= t.drop_first() + rest);
        lemma_newline_after(t.drop_first(), rest);
    } else {
        assert(t + rest =~= rest);
    }
}

proof fn lemma_no_newline(t: Seq<char>)
    requires
        forall|i: int| 0 <= i < t.len() ==> t[i] != '\n',
    ensures
        newline_at(t) == -1,
    decreases t.len(),
{
    if t.len() > 0 {
        lemma_no_newline(t.drop_first());
    }
}

/// The characters of `s`.
pub fn chars_of(s: &str) -> (v: Vec<char>)
    ensures
        v@ == s@,
{
    broadcast use vstd::string::group_string_axioms;
    let mut v: Vec<char> = Vec::new();
    for c in it: s.chars()
        invariant
            v@ == it.seq().take(it.index() as int),
            it.seq() == s@,
    {
        v.push(c);
    }
    v
}

/// The lines of the text `cs`, as `str::lines` splits them.
pub fn lines_of(cs: &Vec<char>) -> (lines: Vec<Vec<char>>)
    ensures
        lines@.map_values(|l: Vec<char>| l@) == split_lines(cs@),
{
    let ghost s = cs@;
    let mut lines: Vec<Vec<char>> = Vec::new();
    let mut cur: Vec<char> = Vec::new();
    let n = cs.len();
    let mut i: usize = 0;
    assert(lines@.map_values(|l: Vec<char>| l@) =~= Seq::<Seq<char>>::empty());
    assert(cur@ + s.skip(0) =~= s);
    assert(Seq::<Seq<char>>::empty() + split_lines(s) =~= split_lines(s));
    while i < n
        invariant
            n == s.len(),
            s == cs@,
            i <= n,
            forall|j: int| 0 <= j < cur@.len() ==> cur@[j] != '\n',
            lines@.map_values(|l: Vec<char>| l@) + split_lines(cur@ + s.skip(i as int)) == split_lines(s),
        decreases n - i,
    {
        let c = cs[i];
        let ghost before = lines@.map_values(|l: Vec<char>| l@);
        if c == '\n' {
            proof {
                let rest = s.skip(i as int);
                lemma_newline_after(cur@, rest);
                let t = cur@ + rest;
                assert(t.take(cur@.len() as int) =~= cur@);
                assert(t.skip(cur@.len() as int + 1) =~= s.skip(i + 1));
                assert(split_lines(t) == seq![strip_cr(cur@)] + split_lines(s.skip(i + 1)));
            }
            let mut line = Vec::new();
            std::mem::swap(&mut line, &mut cur);
            if line.len() > 0 && line[line.len() - 1] == '\r' {
                let _ = line.pop();
            }
            let ghost lv = line@;
            lines.push(line);
            proof {
                assert(lines@.map_values(|l: Vec<char>| l@) =~= before.push(lv));
                assert(before.push(lv) + split_lines(cur@ + s.skip(i + 1)) =~= before + (seq![lv]
                    + split_lines(s.skip(i + 1))));
                assert(cur@ + s.skip(i + 1) =~= s.skip(i + 1));
            }
        } else {
            let ghost old_cur = cur@;
            cur.push(c);
            assert(old_cur + s.skip(i as int) =~= cur@ + s.skip(i + 1));
        }
        i = i + 1;
    }
    proof {
        assert(s.skip(n as int) =~= Seq::<char>::empty());
        assert(cur@ + s.skip(n as int) =~= cur@);
        lemma_no_newline(cur@);
    }
    if cur.len() > 0 {
        let ghost before = lines@.map_values(|l: Vec<char>| l@);
        let ghost cv = cur@;
        lines.push(cur);
        assert(lines@.map_values(|l: Vec<char>| l@) =~= before + seq![cv]);
    } else {
        assert(lines@.map_values(|l: Vec<char>| l@) + split_lines(Seq::<char>::empty()) =~= lines@.map_values(|l: Vec<char>| l@));
    }
    lines
}

/// The text that `String::from_utf8_lossy` makes of `bytes`.
pub uninterp spec fn lossy_text(bytes: Seq<u8>) -> Seq<char>;

/// `String::from_utf8_lossy`: the claim is that the result is the named
/// text of `bytes` and that valid UTF-8 is decoded as it is (std documents
/// that only invalid sequences are replaced).
#[verifier::external_body]
fn text_from_bytes(bytes: &[u8]) -> (s: String)
    ensures
        s@ == lossy_text(bytes@),
        valid_utf8(bytes@) ==> s@ == decode_utf8(bytes@),
{
    String::from_utf8_lossy(bytes).into_owned()
}

/// `event: `
pub open spec fn event_field() -> Seq<char> {
    seq!['e', 'v', 'e', 'n', 't', ':', ' ']
}

/// `data: `
pub open spec fn data_field() -> Seq<char> {
    seq!['d', 'a', 't', 'a', ':', ' ']
}

pub open spec fn starts_with(line: Seq<char>, prefix: Seq<char>) -> bool {
    prefix.len() <= line.len() && line.take(prefix.len() as int) == prefix
}

/// One line of the protocol, with `pending` the event type named so far:
/// an `event: ` line names the type of the next event; a `data: ` line
/// completes an event of the pending type and clears it; any other line
/// (blank lines, comments) changes nothing.
pub open spec fn protocol_step(pending: Seq<char>, line: Seq<char>) -> (Seq<char>, Option<(Seq<char>, Seq<char>)>) {
    if starts_with(line, event_field()) {
        (line.skip(7), None)
    } else if starts_with(line, data_field()) {
        (Seq::empty(), Some((pending, line.skip(6))))
    } else {
        (pending, None)
    }
}

/// The pending event type after `lines`, and the events they complete, in order.
pub open spec fn protocol_run(pending: Seq<char>, lines: Seq<Seq<char>>) -> (Seq<char>, Seq<(Seq<char>, Seq<char>)>)
    decreases lines.len(),
{
    if lines.len() == 0 {
        (pending, Seq::empty())
    } else {
        let (p, evs) = protocol_run(pending, lines.drop_last());
        let (p2, e) = protocol_step(p, lines.last());
        match e {
            Some(ev) => (p2, evs.push(ev)),
            None => (p2, evs),
        }
    }
}

/// A complete event: its type (empty when none was named) and its data.
pub struct SseEvent {
    pub event: String,
    pub data: String,
}

impl View for SseEvent {
    type V = (Seq<char>, Seq<char>);

    open spec fn view(&self) -> (Seq<char>, Seq<char>) {
        (self.event@, self.data@)
    }
}

fn starts_with_chars(line: &Vec<char>, prefix: &Vec<char>) -> (b: bool)
    ensures
        b == starts_with(line@, prefix@),
{
    if prefix.len() > line.len() {
        return false;
    }
    let n = prefix.len();
    let mut i: usize = 0;
    while i < n
        invariant
            n == prefix@.len(),
            n <= line@.len(),
            i <= n,
            forall|j: int| 0 <= j < i ==> line@[j] == prefix@[j],
        decreases n - i,
    {
        if line[i] != prefix[i] {
            assert(line@.take(n as int)[i as int] != prefix@[i as int]);
            return false;
        }
        i = i + 1;
    }
    assert(line@.take(n as int) =~= prefix@);
    true
}

fn suffix(line: &Vec<char>, from: usize) -> (s: String)
    requires
        from <= line@.len(),
    ensures
        s@ == line@.skip(from as int),
{
    let mut out: Vec<char> = Vec::new();
    let mut i = from;
    while i < line.len()
        invariant
            from <= i <= line@.len(),
            out@ == line@.subrange(from as int, i as int),
        decreases line@.len() - i,
    {
        out.push(line[i]);
        i = i + 1;
        assert(out@ =~= line@.subrange(from as int, i as int));
    }
    assert(out@ =~= line@.skip(from as int));
    string_from_chars(&out)
}

/// Reads the event stream line by line, remembering the pending event type
/// from one piece of the stream to the next.
pub struct SseParser {
    pub pending: String,
}

impl SseParser {
    /// No event type pending.
    pub fn new() -> (p: SseParser)
        ensures
            p.pending@ == Seq::<char>::empty(),
    {
        SseParser { pending: String::new() }
    }

    fn feed_line(&mut self, line: &Vec<char>) -> (e: Option<SseEvent>)
        ensures
            (final(self).pending@, match e {
                Some(ev) => Some(ev@),
                None => None,
            }) == protocol_step(old(self).pending@, line@),
    {
        let ev = vec!['e', 'v', 'e', 'n', 't', ':', ' '];
        let da = vec!['d', 'a', 't', 'a', ':', ' '];
        assert(ev@ =~= event_field());
        assert(da@ =~= data_field());
        if starts_with_chars(line, &ev) {
            self.pending = suffix(line, 7);
            None
        } else if starts_with_chars(line, &da) {
            let data = suffix(line, 6);
            let mut event = String::new();
            std::mem::swap(&mut event, &mut self.pending);
            Some(SseEvent { event, data })
        } else {
            None
        }
    }

    /// Reads one piece of text from the stream and returns the events it completes.
    pub fn feed(&mut self, text: &str) -> (events: Vec<SseEvent>)
        ensures
            (final(self).pending@, events@.map_values(|e: SseEvent| e@)) == protocol_run(
                old(self).pending@,
                split_lines(text@),
            ),
    {
        let cs = chars_of(text);
        let lines = lines_of(&cs);
        let ghost ls = lines@.map_values(|l: Vec<char>| l@);
        let mut events: Vec<SseEvent> = Vec::new();
        let n = lines.len();
        let mut i: usize = 0;
        assert(ls.take(0) =~= Seq::<Seq<char>>::empty());
        assert(events@.map_values(|e: SseEvent| e@) =~= Seq::<(Seq<char>, Seq<char>)>::empty());
        while i < n
            invariant
                n == lines@.len(),
                ls == lines@.map_values(|l: Vec<char>| l@),
                i <= n,
                (self.pending@, events@.map_values(|e: SseEvent| e@)) == protocol_run(
                    old(self).pending@,
                    ls.take(i as int),
                ),
            decreases n - i,
        {
            let ghost evs = events@.map_values(|e: SseEvent| e@);
            assert(ls.take(i + 1).drop_last() =~= ls.take(i as int));
            assert(ls.take(i + 1).last() == lines@[i as int]@);
            match self.feed_line(&lines[i]) {
                Some(e) => {
                    let ghost ev = e@;
                    events.push(e);
                    assert(events@.map_values(|e: SseEvent| e@) =~= evs.push(ev));
                },
                None => {},
            }
            i = i + 1;
        }
        assert(ls.take(n as int) =~= ls);
        events
    }

    /// Reads one chunk of bytes from the stream (decoded as
    /// `String::from_utf8_lossy` does) and returns the events it completes.
    pub fn feed_bytes(&mut self, chunk: &[u8]) -> (events: Vec<SseEvent>)
        ensures
            (final(self).pending@, events@.map_values(|e: SseEvent| e@)) == protocol_run(
                old(self).pending@,
                split_lines(lossy_text(chunk@)),
            ),
    {
        let text = text_from_bytes(chunk);
        self.feed(text.as_str())
    }
}

/// What the runtime does with one event.
pub enum StreamAction {
    /// Nothing (unknown events, events about this agent's own messages,
    /// undecodable messages).
    Ignore,
    /// Record a heartbeat.
    Heartbeat,
    /// Deliver the message.
    Deliver(Message),
}

/// Mathematical model of a [`StreamAction`].
pub enum StreamActionView {
    Ignore,
    Heartbeat,
    Deliver(MessageView),
}

impl View for StreamAction {
    type V = StreamActionView;

    open spec fn view(&self) -> StreamActionView {
        match self {
            StreamAction::Ignore => StreamActionView::Ignore,
            StreamAction::Heartbeat => StreamActionView::Heartbeat,
            StreamAction::Deliver(m) => StreamActionView::Deliver(m@),
        }
    }
}

/// The stream takes in a decoded message when it comes from another agent
/// and its id has not been seen; a message without an id cannot be
/// recognised again and is taken in whenever it comes from another agent.
pub open spec fn stream_admits(seen: Seq<Seq<char>>, agent: Seq<char>, r: RawMessageView) -> bool {
    from_other(agent, r) && (raw_id(r).len() == 0 || !seen.contains(raw_id(r)))
}

/// What the stream does with a decoded message event (`None`: not JSON).
pub open spec fn message_action_of(seen: Seq<Seq<char>>, decoded: Option<RawMessageView>, agent: Seq<char>) -> StreamActionView {
    match decoded {
        Some(r) => if stream_admits(seen, agent, r) {
            StreamActionView::Deliver(message_of(r))
        } else {
            StreamActionView::Ignore
        },
        None => StreamActionView::Ignore,
    }
}

/// The seen set after a decoded message event: the id of a message taken
/// in is added.
pub open spec fn message_seen_after(seen: Seq<Seq<char>>, decoded: Option<RawMessageView>, agent: Seq<char>) -> Seq<Seq<char>> {
    match decoded {
        Some(r) => if stream_admits(seen, agent, r) && raw_id(r).len() > 0 {
            seen.push(raw_id(r))
        } else {
            seen
        },
        None => seen,
    }
}

/// Whether an event carries a message: `message` events and events with no type.
pub open spec fn carries_message(event: Seq<char>) -> bool {
    event != "heartbeat"@ && (event == "message"@ || event.len() == 0)
}

/// `heartbeat` events record a heartbeat; `message` events, and events with
/// no type, carry a message; every other event is ignored.
pub open spec fn event_action_of(seen: Seq<Seq<char>>, event: Seq<char>, data: Seq<char>, agent: Seq<char>) -> StreamActionView {
    if event == "heartbeat"@ {
        StreamActionView::Heartbeat
    } else if carries_message(event) {
        message_action_of(seen, decoded_message(data), agent)
    } else {
        StreamActionView::Ignore
    }
}

/// The seen set after an event.
pub open spec fn event_seen_after(seen: Seq<Seq<char>>, event: Seq<char>, data: Seq<char>, agent: Seq<char>) -> Seq<Seq<char>> {
    if carries_message(event) {
        message_seen_after(seen, decoded_message(data), agent)
    } else {
        seen
    }
}

/// What to do with a decoded message event (`None`: the data was not
/// JSON); the id of a message taken in is marked as seen.
pub fn message_action(seen: &mut SeenSet, decoded: Option<RawMessage>, agent_id: &String) -> (a: StreamAction)
    ensures
        a@ == message_action_of(old(seen)@, opt_raw_view(decoded), agent_id@),
        final(seen)@ == message_seen_after(old(seen)@, opt_raw_view(decoded), agent_id@),
{
    match decoded {
        Some(raw) => {
            let from = raw.from_or_empty();
            if from == *agent_id || from.as_str().is_empty() {
                return StreamAction::Ignore;
            }
            let id = raw.id_or_empty();
            if id.as_str().is_empty() {
                StreamAction::Deliver(Message::from_raw(&raw))
            } else if seen.contains(&id) {
                StreamAction::Ignore
            } else {
                seen.insert(id);
                StreamAction::Deliver(Message::from_raw(&raw))
            }
        },
        None => StreamAction::Ignore,
    }
}

/// What to do with an event; the id of a message taken in is marked as seen.
pub fn event_action(seen: &mut SeenSet, event: &SseEvent, agent_id: &String) -> (a: StreamAction)
    ensures
        a@ == event_action_of(old(seen)@, event.event@, event.data@, agent_id@),
        final(seen)@ == event_seen_after(old(seen)@, event.event@, event.data@, agent_id@),
{
    if event.event == "heartbeat".to_owned() {
        StreamAction::Heartbeat
    } else if event.event == "message".to_owned() || event.event.as_str().is_empty() {
        message_action(seen, decode_message(event.data.as_str()), agent_id)
    } else {
        StreamAction::Ignore
    }
}

/// Books the outcome of delivering a stream message with id `msg_id`:
/// returns whether to acknowledge it (only when the platform accepted it);
/// a retried message, or one whose provider erred, leaves the seen set so
/// that it is taken in again.
pub fn record_stream_outcome(seen: &mut SeenSet, msg_id: &String, outcome: &DeliveryOutcome) -> (ack: bool)
    ensures
        ack == delivered(*outcome),
        final(seen)@ == (if retried(*outcome) { without(old(seen)@, msg_id@) } else { old(seen)@ }),
{
    match outcome {
        Ok(DeliveryResult::Delivered) => true,
        Ok(DeliveryResult::Failed(_)) => false,
        _ => {
            seen.remove(msg_id);
            false
        },
    }
}

} // verus!
