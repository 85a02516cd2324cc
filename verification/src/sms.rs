//! The SMS channel: the request that sends one message through voip.ms.

use vstd::prelude::*;
use vstd::string::*;
use vstd::utf8::encode_utf8;
use crate::config::Args;

verus! {

/// The bytes that stay as they are in a query: ASCII letters and digits and
/// the four marks `-`, `.`, `_` and `~`.
pub open spec fn is_unreserved(b: u8) -> bool {
    ||| 0x30 <= b <= 0x39
    ||| 0x41 <= b <= 0x5a
    ||| 0x61 <= b <= 0x7a
    ||| b == 0x2d
    ||| b == 0x2e
    ||| b == 0x5f
    ||| b == 0x7e
}

/// The upper-case hexadecimal digit for `d`, which is meant to be below 16.
pub open spec fn hex_digit(d: u8) -> char {
    if d < 10 {
        (0x30 + d) as char
    } else {
        (0x41 + d - 10) as char
    }
}

/// One byte as it stands in a query: itself where it is unreserved, else a
/// percent sign and its two hexadecimal digits.
pub open spec fn percent_encoded_byte(b: u8) -> Seq<char> {
    if is_unreserved(b) {
        seq![b as char]
    } else {
        seq!['%', hex_digit(b / 16), hex_digit(b % 16)]
    }
}

/// A sequence of bytes as it stands in a query, byte by byte.
pub open spec fn percent_encoded(bytes: Seq<u8>) -> Seq<char>
    decreases bytes.len(),
{
    if bytes.len() == 0 {
        Seq::empty()
    } else {
        percent_encoded(bytes.drop_last()) + percent_encoded_byte(bytes.last())
    }
}

/// A text as it stands in a query: the percent-encoding of its UTF-8 bytes.
pub open spec fn query_text(text: Seq<char>) -> Seq<char> {
    percent_encoded(encode_utf8(text))
}

/// The address of the request that sends `message` from `from` to `to` with
/// the given account.
pub open spec fn sms_uri_text(
    username: Seq<char>,
    password: Seq<char>,
    from: Seq<char>,
    to: Seq<char>,
    message: Seq<char>,
) -> Seq<char> {
    "https://voip.ms/api/v1/rest.php?api_username="@ + query_text(username) + "&api_password="@
        + query_text(password) + "&method=sendSMS&did="@ + query_text(from) + "&dst="@
        + query_text(to) + "&message="@ + query_text(message)
}

/// Calls `urlencoding::encode`, which goes through the UTF-8 bytes of `data`,
/// keeps ASCII letters, digits and `-`, `.`, `_`, `~`, and writes every other
/// byte as `%` and two upper-case hexadecimal digits. Not proved: the
/// contract restates the crate's encoder.
#[verifier::external_body]
fn url_encode(data: &str) -> (encoded: String)
    ensures
        encoded@ == query_text(data@),
{
    urlencoding::encode(data).into_owned()
}

/// Whether the settings name an account, a sender and a receiver.
pub open spec fn sms_configured(args: Args) -> bool {
    &&& args.sms_api_username.is_some()
    &&& args.sms_api_password.is_some()
    &&& args.sms_from_phone_number.is_some()
    &&& args.sms_to_phone_number.is_some()
}

/// The address to request in order to send `message` as an SMS, or `None`
/// where the settings lack the account, the sender or the receiver: the
/// channel then does nothing.
pub fn sms_request_uri(args: &Args, message: &str) -> (uri: Option<String>)
    ensures
        uri.is_some() == sms_configured(*args),
        sms_configured(*args) ==> uri.unwrap()@ == sms_uri_text(
            args.sms_api_username.unwrap()@,
            args.sms_api_password.unwrap()@,
            args.sms_from_phone_number.unwrap()@,
            args.sms_to_phone_number.unwrap()@,
            message@,
        ),
{
    match (
        &args.sms_api_username,
        &args.sms_api_password,
        &args.sms_from_phone_number,
        &args.sms_to_phone_number,
    ) {
        (Some(username), Some(password), Some(from), Some(to)) => {
            let mut uri = String::from_str("https://voip.ms/api/v1/rest.php?api_username=");
            uri.append(url_encode(username.as_str()).as_str());
            uri.append("&api_password=");
            uri.append(url_encode(password.as_str()).as_str());
            uri.append("&method=sendSMS&did=");
            uri.append(url_encode(from.as_str()).as_str());
            uri.append("&dst=");
            uri.append(url_encode(to.as_str()).as_str());
            uri.append("&message=");
            uri.append(url_encode(message).as_str());
            Some(uri)
        },
        _ => None,
    }
}

} // verus!
