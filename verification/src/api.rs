//! The requests the runtime makes to the SignalDock API: endpoints and headers.

use vstd::prelude::*;
use vstd::string::*;
use vstd::utf8::encode_utf8;

verus! {

/// Bytes that `urlencoding` leaves as they are: ASCII letters, digits and `-._~`.
pub open spec fn unreserved(b: u8) -> bool {
    (48 <= b <= 57) || (65 <= b <= 90) || (97 <= b <= 122) || b == 45 || b == 46 || b == 95
        || b == 126
}

/// Upper-case hexadecimal digit for `d < 16`.
pub open spec fn hex_upper(d: u8) -> char {
    if d < 10 {
        (48 + d) as char
    } else {
        (55 + d) as char
    }
}

/// Percent-encoding of a byte string: unreserved bytes stay, every other
/// byte becomes `%` and two upper-case hex digits.
pub open spec fn percent_encoded(bytes: Seq<u8>) -> Seq<char>
    decreases bytes.len(),
{
    if bytes.len() == 0 {
        Seq::empty()
    } else {
        let b = bytes[0];
        let head = if unreserved(b) {
            seq![b as char]
        } else {
            seq!['%', hex_upper(b / 16), hex_upper(b % 16)]
        };
        head + percent_encoded(bytes.drop_first())
    }
}

/// `urlencoding::encode`: the claim is that it percent-encodes the UTF-8
/// bytes of `s`, keeping only ASCII alphanumerics and `-._~`, as its source
/// does.
#[verifier::external_body]
fn url_encode(s: &str) -> (r: String)
    ensures
        r@ == percent_encoded(encode_utf8(s@)),
{
    urlencoding::encode(s).into_owned()
}

/// `{base}{path}`.
fn join(base: &String, path: &str) -> (r: String)
    ensures
        r@ == base@ + path@,
{
    let mut r = base.clone();
    r.append(path);
    r
}

/// The peek endpoint for messages that mention `agent_id`.
pub fn peek_url(api_base: &String, agent_id: &String) -> (r: String)
    ensures
        r@ == api_base@ + "/messages/peek?limit=50&mentioned="@ + percent_encoded(
            encode_utf8(agent_id@),
        ),
{
    let mut r = join(api_base, "/messages/peek?limit=50&mentioned=");
    let enc = url_encode(agent_id.as_str());
    r.append(enc.as_str());
    r
}

/// The acknowledgement endpoint.
pub fn ack_url(api_base: &String) -> (r: String)
    ensures
        r@ == api_base@ + "/messages/ack"@,
{
    join(api_base, "/messages/ack")
}

/// The server-sent-event stream endpoint.
pub fn stream_url(api_base: &String) -> (r: String)
    ensures
        r@ == api_base@ + "/messages/stream"@,
{
    join(api_base, "/messages/stream")
}

/// The `Authorization` header value for a secret.
pub fn bearer(secret: &String) -> (r: String)
    ensures
        r@ == "Bearer "@ + secret@,
{
    let mut r = "Bearer ".to_owned();
    r.append(secret.as_str());
    r
}

/// The `User-Agent` header value: `signaldock-runtime/{version} ({agent_id})`.
pub fn user_agent(version: &str, agent_id: &String) -> (r: String)
    ensures
        r@ == "signaldock-runtime/"@ + version@ + " ("@ + agent_id@ + ")"@,
{
    let mut r = "signaldock-runtime/".to_owned();
    r.append(version);
    r.append(" (");
    r.append(agent_id.as_str());
    r.append(")");
    r
}

} // verus!
