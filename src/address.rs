use vstd::prelude::*;

verus! {

#[verifier::external_type_specification]
#[verifier::external_body]
pub struct ExParseError(url::ParseError);

/// Why a server address could not be formed.
#[derive(Debug, Clone, Copy, PartialEq, Eq, Structural)]
pub enum AddressError {
    /// The host and port do not make a valid URL.
    InvalidUrl,
}

/// The character of a decimal digit `d < 10`.
pub open spec fn digit_char(d: nat) -> char {
    seq!['0', '1', '2', '3', '4', '5', '6', '7', '8', '9'][d as int]
}

/// The decimal numeral of `n`, without leading zeros.
pub open spec fn decimal(n: nat) -> Seq<char>
    decreases n,
{
    if n < 10 {
        seq![digit_char(n)]
    } else {
        decimal(n / 10).push(digit_char(n % 10))
    }
}

/// The WebSocket address of a server: `ws://host:port`.
pub open spec fn ws_address(host: Seq<char>, port: nat) -> Seq<char> {
    "ws://"@ + host + ":"@ + decimal(port)
}

/// What `url::Url::parse` makes of a text: the URL's serialization, or
/// `None` where the text is rejected.
pub uninterp spec fn url_parse(s: Seq<char>) -> Option<Seq<char>>;

/// Relies on `ToString::to_string` for `u64`, which writes the number in
/// decimal without sign or leading zeros.
#[verifier::external_body]
pub(crate) fn decimal_text(n: u64) -> (r: String)
    ensures
        r@ == decimal(n as nat),
{
    n.to_string()
}

/// Relies on `url::Url::parse` and `url::Url::as_str`: the parse either
/// fails or yields a URL whose serialization depends on the text alone.
#[verifier::external_body]
fn parse_url(s: &str) -> (r: Result<String, url::ParseError>)
    ensures
        r matches Ok(t) ==> url_parse(s@) == Some(t@),
        r is Err ==> url_parse(s@) is None,
{
    url::Url::parse(s).map(|u| u.as_str().to_string())
}

/// The text `ws://host:port`.
pub fn ws_address_text(host: &str, port: u64) -> (r: String)
    ensures
        r@ == ws_address(host@, port as nat),
{
    let mut t = String::from_str("ws://");
    t.append(host);
    t.append(":");
    let digits = decimal_text(port);
    t.append(digits.as_str());
    t
}

/// The URL of the server at `host` and `port`, as the URL parser
/// serializes `ws://host:port`; an error where the parser rejects it.
pub fn server_url(host: &str, port: u64) -> (r: Result<String, AddressError>)
    ensures
        match url_parse(ws_address(host@, port as nat)) {
            Some(u) => r matches Ok(t) && t@ == u,
            None => r == Err::<String, AddressError>(AddressError::InvalidUrl),
        },
{
    let text = ws_address_text(host, port);
    match parse_url(text.as_str()) {
        Ok(u) => Ok(u),
        Err(_) => Err(AddressError::InvalidUrl),
    }
}

} // verus!
