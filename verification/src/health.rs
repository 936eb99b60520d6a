//! Health of the runtime: the counters and flags the receivers update, and
//! the JSON report served on the local `/health` endpoint.

use vstd::prelude::*;
use vstd::string::*;
use vstd::utf8::encode_utf8;
use crate::message::{DeliveryOutcome, DeliveryResult, opt_text, text_or};
use crate::sse::chars_of;
use crate::text::{decimal, decimal_string, string_from_chars};

verus! {

/// `x + 1`, wrapping to 0 past `u64::MAX`, as an atomic `fetch_add(1)` does.
pub open spec fn bumped(x: u64) -> u64 {
    if x == u64::MAX {
        0
    } else {
        (x + 1) as u64
    }
}

fn bump(x: u64) -> (r: u64)
    ensures
        r == bumped(x),
{
    x.wrapping_add(1)
}

/// State shared by the receivers and the health endpoint.
pub struct HealthState {
    /// Whether the event stream is connected (polling counts as connected).
    pub connected: bool,
    /// Unix time of the last heartbeat or successful poll.
    pub last_heartbeat: u64,
    /// Messages delivered to the provider since start.
    pub messages_delivered: u64,
    /// Messages taken in for delivery (by polling or from the stream) since start.
    pub messages_received: u64,
    /// Successful provider forwards since start.
    pub hook_deliveries: u64,
    /// Failed provider forwards since start.
    pub hook_delivery_failures: u64,
    /// Id of the last message delivered to the provider (by polling or from the stream).
    pub last_message_id: Option<String>,
    /// The provider (platform) name.
    pub provider_name: String,
    /// The provider's port, when it has one.
    pub provider_port: u16,
    /// The agent this runtime runs as.
    pub agent_id: String,
    /// Unix time at start.
    pub started_at: u64,
}

/// The identity fields (provider name and port, agent id, start time) of `b` are those of `a`.
pub open spec fn same_identity(a: HealthState, b: HealthState) -> bool {
    &&& b.provider_name@ == a.provider_name@
    &&& b.provider_port == a.provider_port
    &&& b.agent_id@ == a.agent_id@
    &&& b.started_at == a.started_at
}

/// The counters stay as in `a`.
pub open spec fn same_counters(a: HealthState, b: HealthState) -> bool {
    &&& b.messages_delivered == a.messages_delivered
    &&& b.messages_received == a.messages_received
    &&& b.hook_deliveries == a.hook_deliveries
    &&& b.hook_delivery_failures == a.hook_delivery_failures
}

impl HealthState {
    /// Fresh state at start time `now`: not connected, heartbeat at `now`,
    /// counters at zero, no provider port.
    pub fn new(agent_id: String, provider_name: String, now: u64) -> (h: HealthState)
        ensures
            !h.connected,
            h.last_heartbeat == now,
            h.messages_delivered == 0,
            h.messages_received == 0,
            h.hook_deliveries == 0,
            h.hook_delivery_failures == 0,
            h.last_message_id is None,
            h.provider_name@ == provider_name@,
            h.provider_port == 0,
            h.agent_id@ == agent_id@,
            h.started_at == now,
    {
        HealthState {
            connected: false,
            last_heartbeat: now,
            messages_delivered: 0,
            messages_received: 0,
            hook_deliveries: 0,
            hook_delivery_failures: 0,
            last_message_id: None,
            provider_name,
            provider_port: 0,
            agent_id,
            started_at: now,
        }
    }

    /// The receiver is connected (or polling).
    pub fn mark_connected(&mut self)
        ensures
            final(self).connected,
            final(self).last_heartbeat == old(self).last_heartbeat,
            final(self).last_message_id == old(self).last_message_id,
            same_counters(*old(self), *final(self)),
            same_identity(*old(self), *final(self)),
    {
        self.connected = true;
    }

    /// The event stream dropped.
    pub fn mark_disconnected(&mut self)
        ensures
            !final(self).connected,
            final(self).last_heartbeat == old(self).last_heartbeat,
            final(self).last_message_id == old(self).last_message_id,
            same_counters(*old(self), *final(self)),
            same_identity(*old(self), *final(self)),
    {
        self.connected = false;
    }

    /// A heartbeat (or successful poll) at Unix time `now`.
    pub fn record_heartbeat(&mut self, now: u64)
        ensures
            final(self).last_heartbeat == now,
            final(self).connected == old(self).connected,
            final(self).last_message_id == old(self).last_message_id,
            same_counters(*old(self), *final(self)),
            same_identity(*old(self), *final(self)),
    {
        self.last_heartbeat = now;
    }

    /// A message was taken in for delivery (by polling or from the stream).
    pub fn record_received(&mut self)
        ensures
            final(self).messages_received == bumped(old(self).messages_received),
            final(self).messages_delivered == old(self).messages_delivered,
            final(self).hook_deliveries == old(self).hook_deliveries,
            final(self).hook_delivery_failures == old(self).hook_delivery_failures,
            final(self).last_message_id == old(self).last_message_id,
            final(self).connected == old(self).connected,
            final(self).last_heartbeat == old(self).last_heartbeat,
            same_identity(*old(self), *final(self)),
    {
        self.messages_received = bump(self.messages_received);
    }

    /// Books the outcome of delivering the message with id `msg_id`: a
    /// delivered message counts as delivered and as a hook delivery and
    /// becomes the last delivered message; a failed one, or one whose
    /// provider erred, counts as a hook failure; a retry counts as neither.
    pub fn record_outcome(&mut self, msg_id: &String, outcome: &DeliveryOutcome)
        ensures
            match *outcome {
                Ok(DeliveryResult::Delivered) => {
                    &&& final(self).messages_delivered == bumped(old(self).messages_delivered)
                    &&& final(self).hook_deliveries == bumped(old(self).hook_deliveries)
                    &&& final(self).hook_delivery_failures == old(self).hook_delivery_failures
                    &&& opt_text(final(self).last_message_id) == Some(msg_id@)
                },
                Ok(DeliveryResult::Retry(_)) => {
                    &&& final(self).messages_delivered == old(self).messages_delivered
                    &&& final(self).hook_deliveries == old(self).hook_deliveries
                    &&& final(self).hook_delivery_failures == old(self).hook_delivery_failures
                    &&& final(self).last_message_id == old(self).last_message_id
                },
                _ => {
                    &&& final(self).messages_delivered == old(self).messages_delivered
                    &&& final(self).hook_deliveries == old(self).hook_deliveries
                    &&& final(self).hook_delivery_failures == bumped(old(self).hook_delivery_failures)
                    &&& final(self).last_message_id == old(self).last_message_id
                },
            },
            final(self).messages_received == old(self).messages_received,
            final(self).connected == old(self).connected,
            final(self).last_heartbeat == old(self).last_heartbeat,
            same_identity(*old(self), *final(self)),
    {
        match outcome {
            Ok(DeliveryResult::Delivered) => {
                self.messages_delivered = bump(self.messages_delivered);
                self.hook_deliveries = bump(self.hook_deliveries);
                self.last_message_id = Some(msg_id.clone());
            },
            Ok(DeliveryResult::Retry(_)) => {},
            _ => {
                self.hook_delivery_failures = bump(self.hook_delivery_failures);
            },
        }
    }
}

/// Lower-case hexadecimal digit for `d < 16`.
pub open spec fn hex_lower(d: nat) -> char {
    if d < 10 {
        (48 + d) as char
    } else {
        (87 + d) as char
    }
}

/// How one character is written inside a JSON string literal: quote and
/// backslash are escaped, control characters use their short escape or
/// `\u00XX`, every other character stands for itself.
pub open spec fn escaped_char(c: char) -> Seq<char> {
    if c == '"' {
        seq!['\\', '"']
    } else if c == '\\' {
        seq!['\\', '\\']
    } else if c == '\n' {
        seq!['\\', 'n']
    } else if c == '\r' {
        seq!['\\', 'r']
    } else if c == '\t' {
        seq!['\\', 't']
    } else if c == '\u{8}' {
        seq!['\\', 'b']
    } else if c == '\u{c}' {
        seq!['\\', 'f']
    } else if (c as u32) < 32 {
        seq!['\\', 'u', '0', '0', hex_lower((c as u32 / 16) as nat), hex_lower((c as u32 % 16) as nat)]
    } else {
        seq![c]
    }
}

/// The characters of `s`, each escaped for a JSON string literal.
pub open spec fn json_escaped(s: Seq<char>) -> Seq<char>
    decreases s.len(),
{
    if s.len() == 0 {
        Seq::empty()
    } else {
        json_escaped(s.drop_last()) + escaped_char(s.last())
    }
}

/// `s` as a JSON string literal.
pub open spec fn json_string(s: Seq<char>) -> Seq<char> {
    seq!['"'] + json_escaped(s) + seq!['"']
}

fn lower_hex_digit(d: u32) -> (c: char)
    requires
        d < 16,
    ensures
        c == hex_lower(d as nat),
{
    let b: u8 = d as u8;
    if b < 10 {
        (b + 48u8) as char
    } else {
        (b + 87u8) as char
    }
}

fn push_escaped(out: &mut Vec<char>, c: char)
    ensures
        final(out)@ == old(out)@ + escaped_char(c),
{
    let ghost before = out@;
    if c == '"' {
        out.push('\\');
        out.push('"');
    } else if c == '\\' {
        out.push('\\');
        out.push('\\');
    } else if c == '\n' {
        out.push('\\');
        out.push('n');
    } else if c == '\r' {
        out.push('\\');
        out.push('r');
    } else if c == '\t' {
        out.push('\\');
        out.push('t');
    } else if c == '\u{8}' {
        out.push('\\');
        out.push('b');
    } else if c == '\u{c}' {
        out.push('\\');
        out.push('f');
    } else if (c as u32) < 32 {
        let v = c as u32;
        out.push('\\');
        out.push('u');
        out.push('0');
        out.push('0');
        out.push(lower_hex_digit(v / 16));
        out.push(lower_hex_digit(v % 16));
    } else {
        out.push(c);
    }
    assert(out@ =~= before + escaped_char(c));
}

/// Appends `s` to `out` as a JSON string literal.
pub fn push_json_string(out: &mut String, s: &String)
    ensures
        final(out)@ == old(out)@ + json_string(s@),
{
    let cs = chars_of(s.as_str());
    let mut lit: Vec<char> = Vec::new();
    lit.push('"');
    let n = cs.len();
    let mut i: usize = 0;
    while i < n
        invariant
            n == cs@.len(),
            cs@ == s@,
            i <= n,
            lit@ == seq!['"'] + json_escaped(cs@.take(i as int)),
        decreases n - i,
    {
        assert(cs@.take(i + 1).drop_last() =~= cs@.take(i as int));
        let ghost before = lit@;
        push_escaped(&mut lit, cs[i]);
        assert(lit@ =~= seq!['"'] + json_escaped(cs@.take(i + 1)));
        i = i + 1;
    }
    assert(cs@.take(n as int) =~= cs@);
    lit.push('"');
    assert(lit@ =~= json_string(s@));
    let t = string_from_chars(&lit);
    out.append(t.as_str());
}

/// `true` or `false`.
pub open spec fn bool_text(b: bool) -> Seq<char> {
    if b {
        "true"@
    } else {
        "false"@
    }
}

/// Seconds since start, zero if the clock went back.
pub open spec fn uptime(h: HealthState, now: u64) -> nat {
    if now >= h.started_at {
        (now - h.started_at) as nat
    } else {
        0
    }
}

/// Seconds since the last heartbeat, zero if the clock went back.
pub open spec fn heartbeat_age(h: HealthState, now: u64) -> nat {
    if now >= h.last_heartbeat {
        (now - h.last_heartbeat) as nat
    } else {
        0
    }
}

/// The JSON health report at Unix time `now`: status `healthy` when
/// connected and `degraded` otherwise, then the identity, the heartbeat and
/// its age, the counters, the last delivered message id (empty when none)
/// and the uptime. Text fields are written as JSON string literals.
pub open spec fn health_body(h: HealthState, now: u64) -> Seq<char> {
    "{\"status\":\""@ + (if h.connected { "healthy"@ } else { "degraded"@ })
        + "\",\"agentId\":"@ + json_string(h.agent_id@)
        + ",\"provider\":"@ + json_string(h.provider_name@)
        + ",\"providerPort\":"@ + decimal(h.provider_port as nat)
        + ",\"connected\":"@ + bool_text(h.connected)
        + ",\"lastHeartbeat\":"@ + decimal(h.last_heartbeat as nat)
        + ",\"heartbeatAgeSeconds\":"@ + decimal(heartbeat_age(h, now))
        + ",\"messagesReceived\":"@ + decimal(h.messages_received as nat)
        + ",\"messagesDelivered\":"@ + decimal(h.messages_delivered as nat)
        + ",\"hookDeliveries\":"@ + decimal(h.hook_deliveries as nat)
        + ",\"hookDeliveryFailures\":"@ + decimal(h.hook_delivery_failures as nat)
        + ",\"lastMessageId\":"@ + json_string(text_or(opt_text(h.last_message_id), Seq::empty()))
        + ",\"uptimeSeconds\":"@ + decimal(uptime(h, now))
        + "}"@
}

/// The HTTP response that carries a JSON body, its `Content-Length` being
/// the length of the body in UTF-8 bytes (as the `usize` that `str::len`
/// gives).
pub open spec fn json_response(body: Seq<char>) -> Seq<char> {
    "HTTP/1.1 200 OK\r\nContent-Type: application/json\r\nContent-Length: "@
        + decimal((encode_utf8(body).len() as usize) as nat)
        + "\r\nConnection: close\r\n\r\n"@ + body
}

fn push_number(s: &mut String, label: &str, n: u64)
    ensures
        final(s)@ == old(s)@ + label@ + decimal(n as nat),
{
    s.append(label);
    let d = decimal_string(n);
    s.append(d.as_str());
}

impl HealthState {
    /// The JSON health report at Unix time `now`.
    pub fn report(&self, now: u64) -> (body: String)
        ensures
            body@ == health_body(*self, now),
    {
        let mut s = "{\"status\":\"".to_owned();
        if self.connected {
            s.append("healthy");
        } else {
            s.append("degraded");
        }
        s.append("\",\"agentId\":");
        push_json_string(&mut s, &self.agent_id);
        s.append(",\"provider\":");
        push_json_string(&mut s, &self.provider_name);
        push_number(&mut s, ",\"providerPort\":", self.provider_port as u64);
        s.append(",\"connected\":");
        if self.connected {
            s.append("true");
        } else {
            s.append("false");
        }
        push_number(&mut s, ",\"lastHeartbeat\":", self.last_heartbeat);
        push_number(&mut s, ",\"heartbeatAgeSeconds\":", now.saturating_sub(self.last_heartbeat));
        push_number(&mut s, ",\"messagesReceived\":", self.messages_received);
        push_number(&mut s, ",\"messagesDelivered\":", self.messages_delivered);
        push_number(&mut s, ",\"hookDeliveries\":", self.hook_deliveries);
        push_number(&mut s, ",\"hookDeliveryFailures\":", self.hook_delivery_failures);
        s.append(",\"lastMessageId\":");
        let last = crate::message::text_or_empty(&self.last_message_id);
        push_json_string(&mut s, &last);
        let up = now.saturating_sub(self.started_at);
        push_number(&mut s, ",\"uptimeSeconds\":", up);
        s.append("}");
        assert(s@ =~= health_body(*self, now));
        s
    }

    /// The full HTTP response of the health endpoint at Unix time `now`.
    pub fn http_response(&self, now: u64) -> (r: String)
        ensures
            r@ == json_response(health_body(*self, now)),
    {
        let body = self.report(now);
        let len = body.as_str().len();
        let mut r = "HTTP/1.1 200 OK\r\nContent-Type: application/json\r\nContent-Length: ".to_owned();
        let d = decimal_string(len as u64);
        r.append(d.as_str());
        r.append("\r\nConnection: close\r\n\r\n");
        r.append(body.as_str());
        assert(r@ =~= json_response(health_body(*self, now)));
        r
    }
}

} // verus!
