//! Connection-time values of the realtime event bridge, and the
//! classification of inbound events.
//!
//! The realtime transport itself (a socket.io connection; protocol major
//! version must be pinned compatibly with the server) is driven outside the
//! verified core.  This module prepares the connection-time values — the
//! endpoint URL scoped by `locationId` and the bearer `Authorization` header —
//! and renders each inbound event for the consumer.

use vstd::prelude::*;
use vstd::string::StringExecFns;
use crate::auth::AuthToken;
use crate::errors::BridgeError;
use crate::locations::Location;

verus! {

/// One realtime message, polymorphic over payload shape.  Ownership is
/// transient: each event is handed to the consumer and then discarded.
pub enum Event {
    Text(String),
    Binary(Vec<u8>),
}

/// The sixteen hexadecimal digit characters.
pub open spec fn spec_hex_digit(d: int) -> char {
    if d == 0 {
        '0'
    } else if d == 1 {
        '1'
    } else if d == 2 {
        '2'
    } else if d == 3 {
        '3'
    } else if d == 4 {
        '4'
    } else if d == 5 {
        '5'
    } else if d == 6 {
        '6'
    } else if d == 7 {
        '7'
    } else if d == 8 {
        '8'
    } else if d == 9 {
        '9'
    } else if d == 10 {
        'a'
    } else if d == 11 {
        'b'
    } else if d == 12 {
        'c'
    } else if d == 13 {
        'd'
    } else if d == 14 {
        'e'
    } else {
        'f'
    }
}

/// One byte as two hexadecimal digits, high digit first.
pub open spec fn spec_byte_hex(b: u8) -> Seq<char> {
    seq![spec_hex_digit(b as int / 16), spec_hex_digit(b as int % 16)]
}

/// A byte string as hexadecimal text, two digits per byte, in order.
pub open spec fn spec_bytes_hex(bs: Seq<u8>) -> Seq<char>
    decreases bs.len(),
{
    if bs.len() == 0 {
        Seq::empty()
    } else {
        spec_bytes_hex(bs.drop_last()) + spec_byte_hex(bs.last())
    }
}

/// The hexadecimal digit character for one value below sixteen.
fn hex_digit_str(d: u8) -> (r: &'static str)
    requires
        d < 16,
    ensures
        r@ == seq![spec_hex_digit(d as int)],
{
    match d {
        0 => { proof { reveal_strlit("0"); assert("0"@ =~= seq!['0']); } "0" },
        1 => { proof { reveal_strlit("1"); assert("1"@ =~= seq!['1']); } "1" },
        2 => { proof { reveal_strlit("2"); assert("2"@ =~= seq!['2']); } "2" },
        3 => { proof { reveal_strlit("3"); assert("3"@ =~= seq!['3']); } "3" },
        4 => { proof { reveal_strlit("4"); assert("4"@ =~= seq!['4']); } "4" },
        5 => { proof { reveal_strlit("5"); assert("5"@ =~= seq!['5']); } "5" },
        6 => { proof { reveal_strlit("6"); assert("6"@ =~= seq!['6']); } "6" },
        7 => { proof { reveal_strlit("7"); assert("7"@ =~= seq!['7']); } "7" },
        8 => { proof { reveal_strlit("8"); assert("8"@ =~= seq!['8']); } "8" },
        9 => { proof { reveal_strlit("9"); assert("9"@ =~= seq!['9']); } "9" },
        10 => { proof { reveal_strlit("a"); assert("a"@ =~= seq!['a']); } "a" },
        11 => { proof { reveal_strlit("b"); assert("b"@ =~= seq!['b']); } "b" },
        12 => { proof { reveal_strlit("c"); assert("c"@ =~= seq!['c']); } "c" },
        13 => { proof { reveal_strlit("d"); assert("d"@ =~= seq!['d']); } "d" },
        14 => { proof { reveal_strlit("e"); assert("e"@ =~= seq!['e']); } "e" },
        _ => { proof { reveal_strlit("f"); assert("f"@ =~= seq!['f']); } "f" },
    }
}

/// Render a byte string as hexadecimal text.
pub fn bytes_hex(bytes: &Vec<u8>) -> (r: String)
    ensures
        r@ == spec_bytes_hex(bytes@),
{
    let mut out = String::new();
    let mut i: usize = 0;
    while i < bytes.len()
        invariant
            i <= bytes.len(),
            out@ == spec_bytes_hex(bytes@.take(i as int)),
        decreases bytes.len() - i,
    {
        let b = bytes[i];
        out.append(hex_digit_str(b / 16));
        out.append(hex_digit_str(b % 16));
        proof {
            assert(bytes@.take(i as int + 1).drop_last() =~= bytes@.take(i as int));
            assert(bytes@.take(i as int + 1).last() == b);
            assert(seq![spec_hex_digit(b as int / 16)] + seq![spec_hex_digit(b as int % 16)]
                =~= spec_byte_hex(b));
        }
        i = i + 1;
    }
    proof {
        assert(bytes@.take(bytes@.len() as int) =~= bytes@);
    }
    out
}

/// The consumer-facing rendering of one event: each inbound message is
/// classified as textual or binary and forwarded as one log line.  This runs
/// on the transport's own dispatch thread and performs no blocking work.
pub fn event_summary(event: &Event) -> (r: String)
    ensures
        event matches Event::Text(s) ==> r@ == "Received: "@ + s@,
        event matches Event::Binary(b) ==> r@ == "Received bytes: "@ + spec_bytes_hex(b@),
{
    match event {
        Event::Text(s) => {
            let mut line = String::from_str("Received: ");
            line.append(s.as_str());
            line
        },
        Event::Binary(b) => {
            let mut line = String::from_str("Received bytes: ");
            let hex = bytes_hex(b);
            line.append(hex.as_str());
            line
        },
    }
}

/// Everything the transport needs at connection time.
pub struct StreamConfig {
    /// The realtime endpoint with the `locationId` query parameter attached.
    pub url: String,
    /// The value of the `Authorization` header, set once at connection time.
    pub auth_header_value: String,
}

/// The realtime endpoint URL for one location: the fixed base address with
/// `locationId` attached as the sole (percent-encoded) query pair.  This
/// names the result of `build_socket_url`, which depends on the location id
/// alone.
pub uninterp spec fn socket_url_of(location_id: Seq<char>) -> Seq<char>;

/// Relies on reqwest::Url: `parse` on the fixed realtime base address, then
/// `query_pairs_mut().clear().append_pair(..)` attaches `locationId` as the
/// sole query pair, percent-encoding the value.  The result is a function of
/// the location id alone, and a URL is always produced: the fixed base is a
/// valid absolute URL, so `parse` succeeds on it, and appending a query pair
/// is total.
#[verifier::external_body]
fn build_socket_url(location_id: &str) -> (r: Option<String>)
    ensures
        r is Some,
        r matches Some(u) ==> u@ == socket_url_of(location_id@),
{
    let mut url = match reqwest::Url::parse("https://sdk.iotiliti.cloud/") {
        Ok(u) => u,
        Err(_) => return None,
    };
    url.query_pairs_mut().clear().append_pair("locationId", location_id);
    Some(url.as_str().to_string())
}

/// The value of the bearer `Authorization` header for `token`.
pub fn bearer_header_value(token: &AuthToken) -> (r: String)
    ensures
        r@ == "Bearer "@ + token.access_token@,
{
    let mut header = String::from_str("Bearer ");
    header.append(token.access_token.as_str());
    header
}

/// Prepare the connection-time values of the realtime bridge: the endpoint
/// URL scoped to `location` and the bearer header for `token`.  Always
/// succeeds: the endpoint base is fixed and valid, so the connection is
/// always given exactly these two values.
pub fn prepare_stream(token: &AuthToken, location: &Location) -> (r: Result<
    StreamConfig,
    BridgeError,
>)
    ensures
        r is Ok,
        r matches Ok(c) ==> c.url@ == socket_url_of(location.location_id@)
            && c.auth_header_value@ == "Bearer "@ + token.access_token@,
{
    match build_socket_url(location.location_id.as_str()) {
        Some(url) => Ok(StreamConfig { url, auth_header_value: bearer_header_value(token) }),
        None => unreached(),
    }
}

} // verus!
