use vstd::prelude::*;

use crate::json::{json_string, json_string_text};

verus! {

/// A message addressed to the clients of one channel.
pub enum TemplateMessage {
    SetText { id: String, text: String },
    AddClass { id: String, class: String },
    RemoveClass { id: String, class: String },
    ExecuteAnimation { animation: String },
    SetImageSource { id: String, asset: String },
    Reload,
    LogError { message: String, stack: String },
}

/// `{"type":"<kind>"` followed by nothing else yet.
pub open spec fn frame_head(kind: Seq<char>) -> Seq<char> {
    "{\"type\":\""@ + kind + "\""@
}

/// `,"<key>":` followed by the JSON text of `value`.
pub open spec fn frame_field(key: Seq<char>, value: Seq<char>) -> Option<Seq<char>> {
    match json_string_text(value) {
        Some(q) => Some(",\""@ + key + "\":"@ + q),
        None => None,
    }
}

/// The frame of a message with no payload.
pub open spec fn frame0(kind: Seq<char>) -> Seq<char> {
    frame_head(kind) + "}"@
}

/// The frame of a message with one string field.
pub open spec fn frame1(kind: Seq<char>, k1: Seq<char>, v1: Seq<char>) -> Option<Seq<char>> {
    match frame_field(k1, v1) {
        Some(f1) => Some(frame_head(kind) + f1 + "}"@),
        None => None,
    }
}

/// The frame of a message with two string fields.
pub open spec fn frame2(
    kind: Seq<char>,
    k1: Seq<char>,
    v1: Seq<char>,
    k2: Seq<char>,
    v2: Seq<char>,
) -> Option<Seq<char>> {
    match (frame_field(k1, v1), frame_field(k2, v2)) {
        (Some(f1), Some(f2)) => Some(frame_head(kind) + f1 + f2 + "}"@),
        _ => None,
    }
}

/// The text frame of a message: a JSON object whose `type` field names the
/// variant, followed by the variant's fields in declaration order.
pub open spec fn frame_of(m: TemplateMessage) -> Option<Seq<char>> {
    match m {
        TemplateMessage::SetText { id, text } => frame2("SetText"@, "id"@, id@, "text"@, text@),
        TemplateMessage::AddClass { id, class } => frame2("AddClass"@, "id"@, id@, "class"@, class@),
        TemplateMessage::RemoveClass { id, class } => frame2(
            "RemoveClass"@,
            "id"@,
            id@,
            "class"@,
            class@,
        ),
        TemplateMessage::ExecuteAnimation { animation } => frame1(
            "ExecuteAnimation"@,
            "animation"@,
            animation@,
        ),
        TemplateMessage::SetImageSource { id, asset } => frame2(
            "SetImageSource"@,
            "id"@,
            id@,
            "asset"@,
            asset@,
        ),
        TemplateMessage::Reload => Some(frame0("Reload"@)),
        TemplateMessage::LogError { message, stack } => frame2(
            "LogError"@,
            "message"@,
            message@,
            "stack"@,
            stack@,
        ),
    }
}

fn encode_field(out: &mut String, key: &str, value: &str) -> (ok: bool)
    ensures
        ok,
        ok == frame_field(key@, value@).is_some(),
        ok ==> final(out)@ == old(out)@ + frame_field(key@, value@).unwrap(),
{
    match json_string(value) {
        Some(q) => {
            out.append(",\"");
            out.append(key);
            out.append("\":");
            out.append(q.as_str());
            true
        },
        None => false,
    }
}

fn encode0(kind: &str) -> (r: String)
    ensures
        r@ == frame0(kind@),
{
    let mut out = String::from_str("{\"type\":\"");
    out.append(kind);
    out.append("\"");
    out.append("}");
    out
}

fn encode1(kind: &str, k1: &str, v1: &str) -> (r: Option<String>)
    ensures
        r.deep_view() == frame1(kind@, k1@, v1@),
        r.is_some(),
{
    let mut out = String::from_str("{\"type\":\"");
    out.append(kind);
    out.append("\"");
    if !encode_field(&mut out, k1, v1) {
        return None;
    }
    out.append("}");
    Some(out)
}

fn encode2(kind: &str, k1: &str, v1: &str, k2: &str, v2: &str) -> (r: Option<String>)
    ensures
        r.deep_view() == frame2(kind@, k1@, v1@, k2@, v2@),
        r.is_some(),
{
    let mut out = String::from_str("{\"type\":\"");
    out.append(kind);
    out.append("\"");
    if !encode_field(&mut out, k1, v1) {
        return None;
    }
    if !encode_field(&mut out, k2, v2) {
        return None;
    }
    out.append("}");
    Some(out)
}

impl TemplateMessage {
    /// Serialises the message into the text frame that clients receive.
    pub fn to_frame(&self) -> (r: Option<String>)
        ensures
            r.deep_view() == frame_of(*self),
            r.is_some(),
    {
        match self {
            TemplateMessage::SetText { id, text } => encode2(
                "SetText",
                "id",
                id.as_str(),
                "text",
                text.as_str(),
            ),
            TemplateMessage::AddClass { id, class } => encode2(
                "AddClass",
                "id",
                id.as_str(),
                "class",
                class.as_str(),
            ),
            TemplateMessage::RemoveClass { id, class } => encode2(
                "RemoveClass",
                "id",
                id.as_str(),
                "class",
                class.as_str(),
            ),
            TemplateMessage::ExecuteAnimation { animation } => encode1(
                "ExecuteAnimation",
                "animation",
                animation.as_str(),
            ),
            TemplateMessage::SetImageSource { id, asset } => encode2(
                "SetImageSource",
                "id",
                id.as_str(),
                "asset",
                asset.as_str(),
            ),
            TemplateMessage::Reload => Some(encode0("Reload")),
            TemplateMessage::LogError { message, stack } => encode2(
                "LogError",
                "message",
                message.as_str(),
                "stack",
                stack.as_str(),
            ),
        }
    }
}

} // verus!
