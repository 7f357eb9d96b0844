//! The outbound websocket connection to Core: its endpoint, and the
//! errors it reports.
use vstd::prelude::*;

use crate::text::{append_decimal, decimal};
use vstd::string::StringSliceAdditionalSpecFns;

verus! {

/// Bytes that percent-encoding leaves as they are.
pub open spec fn is_url_unreserved(b: u8) -> bool {
    ||| (48 <= b && b <= 57)
    ||| (65 <= b && b <= 90)
    ||| (97 <= b && b <= 122)
    ||| b == 45
    ||| b == 46
    ||| b == 95
    ||| b == 126
}

/// An upper-case hexadecimal digit.
pub open spec fn hex_digit(d: u8) -> char {
    if d < 10 {
        (48 + d) as char
    } else {
        (55 + d) as char
    }
}

pub open spec fn url_encoded_byte(b: u8) -> Seq<char> {
    if is_url_unreserved(b) {
        seq![b as char]
    } else {
        seq!['%', hex_digit(b / 16), hex_digit(b % 16)]
    }
}

/// What `urlencoding::encode` makes of a string with these UTF-8 bytes:
/// every byte but the unreserved ones as `%` and two upper-case hex digits.
pub open spec fn url_encoded(bytes: Seq<u8>) -> Seq<char>
    decreases bytes.len(),
{
    if bytes.len() == 0 {
        Seq::empty()
    } else {
        url_encoded(bytes.drop_last()) + url_encoded_byte(bytes.last())
    }
}

/// Calls `urlencoding::encode`. The contract claims what the crate
/// documents and its source does: each UTF-8 byte of `s` in order, an
/// alphanumeric or `-`, `.`, `_`, `~` as that character, any other byte
/// as `%` and its two upper-case hex digits.
#[verifier::external_body]
fn url_encode(s: &str) -> (encoded: String)
    ensures
        encoded@ == url_encoded(s.spec_bytes()),
{
    urlencoding::encode(s).into_owned()
}

/// `server=NAME`, the name percent-encoded.
pub open spec fn login_query_text(connect_as: &str) -> Seq<char> {
    "server="@ + url_encoded(connect_as.spec_bytes())
}

/// The query by which Periphery names the Server it connects as.
pub fn login_query(connect_as: &str) -> (query: String)
    ensures
        query@ == login_query_text(connect_as),
{
    let mut query = String::from_str("server=");
    let encoded = url_encode(connect_as);
    query.append(encoded.as_str());
    query
}

/// Core's websocket endpoint for Periphery at `address`, with `query`.
pub fn periphery_endpoint(address: &str, query: &str) -> (endpoint: String)
    ensures
        endpoint@ == address@ + "/ws/periphery?"@ + query@,
{
    let mut endpoint = String::from_str(address);
    endpoint.append("/ws/periphery?");
    endpoint.append(query);
    endpoint
}

/// Characters that can stand in a percent-encoded value.
pub open spec fn is_url_encoded_char(c: char) -> bool {
    ||| ('0' <= c && c <= '9')
    ||| ('A' <= c && c <= 'Z')
    ||| ('a' <= c && c <= 'z')
    ||| c == '-'
    ||| c == '.'
    ||| c == '_'
    ||| c == '~'
    ||| c == '%'
}

/// The encoded Server name never leaves its query parameter: it holds
/// no `&`, `=`, `#`, blank or other separator, whatever the name is.
pub proof fn lemma_url_encoded_stays_in_parameter(bytes: Seq<u8>)
    ensures
        forall|i: int|
            0 <= i < url_encoded(bytes).len() ==> is_url_encoded_char(
                #[trigger] url_encoded(bytes)[i],
            ),
    decreases bytes.len(),
{
    if bytes.len() > 0 {
        let init = url_encoded(bytes.drop_last());
        let tail = url_encoded_byte(bytes.last());
        lemma_url_encoded_stays_in_parameter(bytes.drop_last());
        let b = bytes.last();
        assert forall|i: int| 0 <= i < tail.len() implies is_url_encoded_char(#[trigger] tail[i]) by {
            if !is_url_unreserved(b) {
                assert(b / 16 < 16 && b % 16 < 16);
            }
        }
        assert forall|i: int| 0 <= i < (init + tail).len() implies is_url_encoded_char(
            #[trigger] (init + tail)[i],
        ) by {
            if i < init.len() {
                assert((init + tail)[i] == init[i]);
            } else {
                assert((init + tail)[i] == tail[i - init.len()]);
            }
        }
    }
}

/// `Timed out after N seconds connecting to Core websocket`.
pub open spec fn connect_timeout_text(timeout_secs: u64) -> Seq<char> {
    "Timed out after "@ + decimal(timeout_secs as nat) + " seconds connecting to Core websocket"@
}

/// The error for a connection attempt that did not complete within the
/// timeout (whole seconds).
pub fn connect_timeout_message(timeout_secs: u64) -> (message: String)
    ensures
        message@ == connect_timeout_text(timeout_secs),
{
    let mut message = String::from_str("Timed out after ");
    append_decimal(&mut message, timeout_secs);
    message.append(" seconds connecting to Core websocket");
    message
}

pub open spec fn rejection_text(status: u16, connect_as: Seq<char>) -> Option<Seq<char>> {
    if status == 404 {
        Some("404 Not Found: Server '"@ + connect_as + "' does not exist."@)
    } else if status == 400 {
        Some(
            "400 Bad Request: Server '"@ + connect_as
                + "' is disabled or configured to make Core → Periphery connection"@,
        )
    } else if status == 401 {
        Some(
            "401 Unauthorized: Only one Server connected as '"@ + connect_as
                + "' is allowed. Or the Core reverse proxy needs to forward host and websocket headers."@,
        )
    } else {
        None
    }
}

/// The error for Core refusing the websocket upgrade with HTTP `status`,
/// explaining what the refusal means for the Server `connect_as`. `None`
/// when the status has no particular meaning: the connection error is
/// then reported as it is.
pub fn rejection_message(status: u16, connect_as: &str) -> (message: Option<String>)
    ensures
        match message {
            Some(m) => rejection_text(status, connect_as@) == Some(m@),
            None => rejection_text(status, connect_as@) is None,
        },
{
    if status == 404 {
        let mut m = String::from_str("404 Not Found: Server '");
        m.append(connect_as);
        m.append("' does not exist.");
        Some(m)
    } else if status == 400 {
        let mut m = String::from_str("400 Bad Request: Server '");
        m.append(connect_as);
        m.append("' is disabled or configured to make Core → Periphery connection");
        Some(m)
    } else if status == 401 {
        let mut m = String::from_str("401 Unauthorized: Only one Server connected as '");
        m.append(connect_as);
        m.append(
            "' is allowed. Or the Core reverse proxy needs to forward host and websocket headers.",
        );
        Some(m)
    } else {
        None
    }
}

} // verus!
