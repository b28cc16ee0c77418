//! The address that starts a browser sign-in which reports back to a local port.

use vstd::prelude::*;
use vstd::utf8::encode_utf8;
use crate::text::{decimal, decimal_text};

verus! {

/// Whether a byte stands for itself in an encoded URL component: an ASCII letter
/// or digit, or one of `-`, `.`, `_`, `~`.
pub open spec fn unreserved(b: u8) -> bool {
    (0x30 <= b && b <= 0x39) || (0x41 <= b && b <= 0x5a) || (0x61 <= b && b <= 0x7a) || b == 0x2d
        || b == 0x2e || b == 0x5f || b == 0x7e
}

/// The upper-case hexadecimal digit for `d`.
pub open spec fn hex_digit(d: u8) -> char {
    seq!['0', '1', '2', '3', '4', '5', '6', '7', '8', '9', 'A', 'B', 'C', 'D', 'E', 'F'][d as int]
}

/// The percent-encoding of `bytes`: an unreserved byte stays as its character,
/// any other becomes `%` followed by its two upper-case hexadecimal digits.
pub open spec fn percent_encoded(bytes: Seq<u8>) -> Seq<char>
    decreases bytes.len(),
{
    if bytes.len() == 0 {
        Seq::empty()
    } else {
        let b = bytes[0];
        let head = if unreserved(b) {
            seq![b as char]
        } else {
            seq!['%', hex_digit(b / 16), hex_digit(b % 16)]
        };
        head + percent_encoded(bytes.drop_first())
    }
}

/// Relies on `urlencoding::encode`: it percent-encodes the UTF-8 bytes of the
/// text, keeping ASCII letters, digits and `-._~`.
#[verifier::external_body]
fn url_encode(s: &str) -> (r: String)
    ensures
        r@ == percent_encoded(encode_utf8(s@)),
{
    urlencoding::encode(s).into_owned()
}

/// The local address that the sign-in page reports back to.
pub open spec fn redirect_uri(port: u16) -> Seq<char> {
    "http://localhost:"@ + decimal(port as nat)
}

/// The sign-in page, told to report back to `redirect`.
pub open spec fn login_page(redirect: Seq<char>) -> Seq<char> {
    "https://app.agnostic.tech/login?redirectTo="@ + percent_encoded(encode_utf8(redirect))
}

/// The local address that the sign-in page reports back to.
pub fn login_redirect_uri(port: u16) -> (r: String)
    ensures
        r@ == redirect_uri(port),
{
    let mut r = String::from_str("http://localhost:");
    let d = decimal_text(port as u128);
    r.append(d.as_str());
    r
}

/// The sign-in page that reports back to a server listening on `port`.
pub fn login_url(port: u16) -> (r: String)
    ensures
        r@ == login_page(redirect_uri(port)),
{
    let redirect = login_redirect_uri(port);
    let encoded = url_encode(redirect.as_str());
    let mut r = String::from_str("https://app.agnostic.tech/login?redirectTo=");
    r.append(encoded.as_str());
    r
}

} // verus!
