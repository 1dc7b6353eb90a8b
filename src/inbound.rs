use vstd::prelude::*;

use crate::json::{json_object_text_field, object_text_field};

verus! {

/// A message sent by a client, as far as the server acts on it.
pub enum InboundMessage {
    /// A client-side error report.
    LogError { message: String, stack: String },
    /// Any other kind of message, kept by its `type` only; it is ignored.
    Other { kind: String },
}

/// Why a client frame could not be decoded.
#[derive(PartialEq, Eq, Structural, Clone, Copy, Debug)]
pub enum DecodeError {
    /// The frame is not one JSON object.
    NotAnObject,
    /// The object has no string `type` field.
    MissingType,
    /// An error report lacks its `message` or `stack` string.
    MissingField,
}

/// Whether `r` is the decoding of a frame whose `type`, `message` and
/// `stack` lookups gave `kind`, `message` and `stack`.
pub open spec fn decoded_as(
    r: Result<InboundMessage, DecodeError>,
    kind: Option<Option<Seq<char>>>,
    message: Option<Option<Seq<char>>>,
    stack: Option<Option<Seq<char>>>,
) -> bool {
    match kind {
        None => r == Err::<InboundMessage, DecodeError>(DecodeError::NotAnObject),
        Some(None) => r == Err::<InboundMessage, DecodeError>(DecodeError::MissingType),
        Some(Some(k)) => if k == "LogError"@ {
            match (message, stack) {
                (Some(Some(m)), Some(Some(s))) => match r {
                    Ok(InboundMessage::LogError { message: rm, stack: rs }) => rm@ == m && rs@ == s,
                    _ => false,
                },
                _ => r == Err::<InboundMessage, DecodeError>(DecodeError::MissingField),
            }
        } else {
            match r {
                Ok(InboundMessage::Other { kind: rk }) => rk@ == k,
                _ => false,
            }
        },
    }
}

/// Decodes a client message from the results of its three field lookups
/// (see `decode_frame`): an error report needs both of its strings; any
/// other `type` is accepted and kept by name.
pub fn decode_fields(
    kind: Option<Option<String>>,
    message: Option<Option<String>>,
    stack: Option<Option<String>>,
) -> (r: Result<InboundMessage, DecodeError>)
    ensures
        decoded_as(r, kind.deep_view(), message.deep_view(), stack.deep_view()),
{
    match kind {
        None => Err(DecodeError::NotAnObject),
        Some(None) => Err(DecodeError::MissingType),
        Some(Some(k)) => {
            let log_error = String::from_str("LogError");
            if k == log_error {
                match (message, stack) {
                    (Some(Some(m)), Some(Some(s))) => Ok(
                        InboundMessage::LogError { message: m, stack: s },
                    ),
                    _ => Err(DecodeError::MissingField),
                }
            } else {
                Ok(InboundMessage::Other { kind: k })
            }
        },
    }
}

/// Decodes one client frame: a JSON object whose string field `type`
/// selects the kind of message.
pub fn decode_frame(bytes: &[u8]) -> (r: Result<InboundMessage, DecodeError>)
    ensures
        decoded_as(
            r,
            json_object_text_field(bytes@, "type"@),
            json_object_text_field(bytes@, "message"@),
            json_object_text_field(bytes@, "stack"@),
        ),
{
    let kind = object_text_field(bytes, "type");
    let message = object_text_field(bytes, "message");
    let stack = object_text_field(bytes, "stack");
    decode_fields(kind, message, stack)
}

/// What the transport yields to a connection's inbound loop.
pub enum InboundEvent {
    /// One frame, as bytes.
    Frame(Vec<u8>),
    /// The transport failed to read.
    ReadError,
    /// The stream ended.
    Closed,
}

/// What the inbound loop does next.
pub enum InboundAction {
    /// Nothing; wait for the next frame.
    Ignore,
    /// Record the client's error report, then wait for the next frame.
    ReportTemplateError { message: String, stack: String },
    /// Record that a frame could not be decoded, then wait for the next one.
    ReportMalformed { error: DecodeError },
    /// Leave the loop and deregister the connection.
    Disconnect,
}

/// The action for a decoded frame: only an error report is acted on, and no
/// frame, well formed or not, ends the connection.
pub open spec fn action_for(r: Result<InboundMessage, DecodeError>, a: InboundAction) -> bool {
    match r {
        Ok(InboundMessage::LogError { message, stack }) => match a {
            InboundAction::ReportTemplateError { message: am, stack: as_ } => am@ == message@
                && as_@ == stack@,
            _ => false,
        },
        Ok(InboundMessage::Other { .. }) => a == InboundAction::Ignore,
        Err(e) => a == (InboundAction::ReportMalformed { error: e }),
    }
}

/// The action for one decoded frame.
pub fn action_for_decoded(decoded: Result<InboundMessage, DecodeError>) -> (a: InboundAction)
    ensures
        action_for(decoded, a),
{
    match decoded {
        Ok(InboundMessage::LogError { message, stack }) => InboundAction::ReportTemplateError {
            message,
            stack,
        },
        Ok(InboundMessage::Other { .. }) => InboundAction::Ignore,
        Err(error) => InboundAction::ReportMalformed { error },
    }
}

/// The inbound loop's decision on one event: the end of the stream or a
/// read error disconnects; a frame is decoded and acted on.
pub fn handle_user_message(event: InboundEvent) -> (a: InboundAction)
    ensures
        match event {
            InboundEvent::Frame(bytes) => exists|r: Result<InboundMessage, DecodeError>|
                decoded_as(
                    r,
                    json_object_text_field(bytes@, "type"@),
                    json_object_text_field(bytes@, "message"@),
                    json_object_text_field(bytes@, "stack"@),
                ) && action_for(r, a),
            _ => a == InboundAction::Disconnect,
        },
{
    match event {
        InboundEvent::Frame(bytes) => action_for_decoded(decode_frame(bytes.as_slice())),
        _ => InboundAction::Disconnect,
    }
}

} // verus!
