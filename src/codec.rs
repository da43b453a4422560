use vstd::prelude::*;
use crate::address::{decimal, decimal_text};
use crate::message::Message;

verus! {

#[verifier::external_type_specification]
#[verifier::external_body]
pub struct ExJsonError(serde_json::Error);

/// Why a message could not be written as JSON.
#[derive(Debug, Clone, Copy, PartialEq, Eq, Structural)]
pub enum EncodeError {
    /// A text field could not be written as a JSON string.
    Text,
}

/// What `serde_json::to_string` makes of a string: a quoted, escaped JSON
/// string literal.
pub uninterp spec fn json_quoted(s: Seq<char>) -> Seq<char>;

/// JSON's spelling of a boolean.
pub open spec fn json_bool(b: bool) -> Seq<char> {
    if b {
        "true"@
    } else {
        "false"@
    }
}

/// The JSON text of a `stop` message's optional error text.
pub open spec fn json_opt_text(s: Option<String>) -> Seq<char> {
    match s {
        Some(t) => json_quoted(t@),
        None => "null"@,
    }
}

/// The JSON object that carries a message on the wire: a `type` field
/// naming the variant first, then the payload fields in order.
pub open spec fn encoding(m: Message) -> Seq<char> {
    match m {
        Message::Start => "{\"type\":\"start\"}"@,
        Message::Fire => "{\"type\":\"fire\"}"@,
        Message::Stop { ticks, bullets_fired, won, error_msg } => "{\"type\":\"stop\",\"ticks\":"@
            + decimal(ticks as nat) + ",\"bullets_fired\":"@ + decimal(bullets_fired as nat)
            + ",\"won\":"@ + json_bool(won) + ",\"error_msg\":"@ + json_opt_text(error_msg)
            + "}"@,
        Message::Error { msg } => "{\"type\":\"error\",\"msg\":"@ + json_quoted(msg@) + "}"@,
    }
}

/// Whether a message holds text that goes through the JSON string writer.
pub open spec fn has_text(m: Message) -> bool {
    match m {
        Message::Stop { error_msg, .. } => error_msg is Some,
        Message::Error { .. } => true,
        _ => false,
    }
}

/// Relies on `serde_json::to_string` applied to a `str`: on success, the
/// JSON string literal for the text.
#[verifier::external_body]
fn quote_text(s: &str) -> (r: Result<String, serde_json::Error>)
    ensures
        r matches Ok(t) ==> t@ == json_quoted(s@),
{
    serde_json::to_string(s)
}

/// Appends the JSON string literal for `s`.
fn push_quoted(out: &mut String, s: &str) -> (r: Result<(), EncodeError>)
    ensures
        r is Ok ==> final(out)@ == old(out)@ + json_quoted(s@),
{
    match quote_text(s) {
        Ok(q) => {
            out.append(q.as_str());
            Ok(())
        },
        Err(_) => Err(EncodeError::Text),
    }
}

/// Writes a message as the JSON text of one frame. Messages without text
/// fields always encode; the others fail only where the JSON string writer
/// does.
pub fn encode_message(m: &Message) -> (r: Result<String, EncodeError>)
    ensures
        r matches Ok(t) ==> t@ == encoding(*m),
        !has_text(*m) ==> r is Ok,
{
    match m {
        Message::Start => Ok(String::from_str("{\"type\":\"start\"}")),
        Message::Fire => Ok(String::from_str("{\"type\":\"fire\"}")),
        Message::Stop { ticks, bullets_fired, won, error_msg } => {
            let mut out = String::from_str("{\"type\":\"stop\",\"ticks\":");
            let t = decimal_text(*ticks as u64);
            out.append(t.as_str());
            out.append(",\"bullets_fired\":");
            let b = decimal_text(*bullets_fired as u64);
            out.append(b.as_str());
            out.append(",\"won\":");
            if *won {
                out.append("true");
            } else {
                out.append("false");
            }
            out.append(",\"error_msg\":");
            match error_msg {
                Some(e) => {
                    push_quoted(&mut out, e.as_str())?;
                },
                None => {
                    out.append("null");
                },
            }
            out.append("}");
            Ok(out)
        },
        Message::Error { msg } => {
            let mut out = String::from_str("{\"type\":\"error\",\"msg\":");
            push_quoted(&mut out, msg.as_str())?;
            out.append("}");
            Ok(out)
        },
    }
}

} // verus!
