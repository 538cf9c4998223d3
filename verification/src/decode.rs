//! The event decoder: one named message of the stream, with its JSON payload,
//! becomes one typed event.

use crate::json::{json_of_text, Json, JsonView};
use crate::text::same_text;
use crate::types::{
    ContentBlock, ContentBlockDelta, ContentBlockStart, ContentBlockStop, ContentBlockView, Delta,
    DeltaView, StreamEvent, StreamEventView,
};
use vstd::prelude::*;

verus! {

/// Why the payload of a recognised event could not be decoded.
#[derive(Clone, Copy, Debug, PartialEq, Eq)]
pub enum DecodeError {
    /// The payload is not JSON.
    Syntax,
    /// The payload is JSON, but a field that the event needs is missing, has
    /// the wrong type, or names a kind of block or delta that is not known.
    Shape,
}

impl DecodeError {
    /// What the error says.
    pub open spec fn text(self) -> Seq<char> {
        match self {
            DecodeError::Syntax => "the payload is not JSON"@,
            DecodeError::Shape => "the payload does not have the shape of its event"@,
        }
    }

    /// What the error says, for the operator.
    pub fn message(&self) -> (message: String)
        ensures
            message@ == self.text(),
    {
        match self {
            DecodeError::Syntax => "the payload is not JSON".to_owned(),
            DecodeError::Shape => "the payload does not have the shape of its event".to_owned(),
        }
    }
}

/// Whether `name` is one of the three events that are decoded. Every other
/// event is passed over.
pub open spec fn is_block_event(name: Seq<char>) -> bool {
    name == "content_block_start"@ || name == "content_block_delta"@ || name
        == "content_block_stop"@
}

/// The block index of a payload: its member `index`, a non-negative integer
/// of 32 bits.
pub open spec fn index_of(doc: JsonView) -> Option<u32> {
    match doc.field("index"@) {
        Some(v) => match v.unsigned() {
            Some(n) => if n <= u32::MAX {
                Some(n as u32)
            } else {
                None
            },
            None => None,
        },
        None => None,
    }
}

/// The opening of a block as an object describes it: `type` tells the kind,
/// `text` holds the initial text of a text block, `id` and `name` identify a
/// tool invocation. Members beyond these are not looked at.
pub open spec fn block_of(doc: JsonView) -> Option<ContentBlockView> {
    match doc.text_field("type"@) {
        Some(kind) => if kind == "text"@ {
            match doc.text_field("text"@) {
                Some(text) => Some(ContentBlockView::TextStart { text }),
                None => None,
            }
        } else if kind == "tool_use"@ {
            match (doc.text_field("id"@), doc.text_field("name"@)) {
                (Some(id), Some(name)) => Some(ContentBlockView::ToolUseStart { id, name }),
                _ => None,
            }
        } else {
            None
        },
        None => None,
    }
}

/// The fragment that an object describes: `type` tells the kind, `text` holds
/// a text fragment, `partial_json` a fragment of argument text.
pub open spec fn delta_of(doc: JsonView) -> Option<DeltaView> {
    match doc.text_field("type"@) {
        Some(kind) => if kind == "text_delta"@ {
            match doc.text_field("text"@) {
                Some(text) => Some(DeltaView::TextDelta { text }),
                None => None,
            }
        } else if kind == "input_json_delta"@ {
            match doc.text_field("partial_json"@) {
                Some(partial_json) => Some(DeltaView::InputJsonDelta { partial_json }),
                None => None,
            }
        } else {
            None
        },
        None => None,
    }
}

/// The event that the payload `doc` of the event `name` stands for.
pub open spec fn event_of(name: Seq<char>, doc: JsonView) -> Option<StreamEventView> {
    match index_of(doc) {
        Some(index) => if name == "content_block_start"@ {
            match doc.field("content_block"@) {
                Some(inner) => match block_of(inner) {
                    Some(block) => Some(StreamEventView::BlockStart { index, block }),
                    None => None,
                },
                None => None,
            }
        } else if name == "content_block_delta"@ {
            match doc.field("delta"@) {
                Some(inner) => match delta_of(inner) {
                    Some(delta) => Some(StreamEventView::BlockDelta { index, delta }),
                    None => None,
                },
                None => None,
            }
        } else if name == "content_block_stop"@ {
            Some(StreamEventView::BlockStop { index })
        } else {
            None
        },
        None => None,
    }
}

/// What decoding makes of an event whose payload has been read as JSON
/// (`parsed`, `None` where the payload is no JSON): nothing for an event that
/// is not recognised, the event, or the reason for which there is none.
pub open spec fn decoded_from(name: Seq<char>, parsed: Option<JsonView>) -> Result<
    Option<StreamEventView>,
    DecodeError,
> {
    if !is_block_event(name) {
        Ok(None)
    } else {
        match parsed {
            None => Err(DecodeError::Syntax),
            Some(doc) => match event_of(name, doc) {
                Some(event) => Ok(Some(event)),
                None => Err(DecodeError::Shape),
            },
        }
    }
}

/// What decoding makes of the event `name` with the payload text `data`.
pub open spec fn decoded(name: Seq<char>, data: Seq<char>) -> Result<
    Option<StreamEventView>,
    DecodeError,
> {
    decoded_from(name, json_of_text(data))
}

/// The view of what a decoder returns.
pub open spec fn outcome_view(outcome: Result<Option<StreamEvent>, DecodeError>) -> Result<
    Option<StreamEventView>,
    DecodeError,
> {
    match outcome {
        Ok(Some(event)) => Ok(Some(event@)),
        Ok(None) => Ok(None),
        Err(e) => Err(e),
    }
}

/// Whether `name` is one of the three events that are decoded.
pub fn recognises(name: &str) -> (known: bool)
    ensures
        known == is_block_event(name@),
{
    same_text(name, "content_block_start") || same_text(name, "content_block_delta") || same_text(
        name,
        "content_block_stop",
    )
}

/// Reads the block index of a payload.
pub fn read_index(doc: &Json) -> (index: Option<u32>)
    ensures
        index == index_of(doc@),
{
    match doc.field("index") {
        Some(v) => match v.as_u64() {
            Some(n) => if n <= 0xffff_ffff {
                Some(n as u32)
            } else {
                None
            },
            None => None,
        },
        None => None,
    }
}

/// Reads the opening of a block.
pub fn read_block(doc: &Json) -> (block: Option<ContentBlock>)
    ensures
        match block {
            Some(b) => block_of(doc@) == Some(b@),
            None => block_of(doc@) is None,
        },
{
    match doc.text_field("type") {
        Some(kind) => if same_text(kind.as_str(), "text") {
            match doc.text_field("text") {
                Some(text) => Some(ContentBlock::TextStart { text }),
                None => None,
            }
        } else if same_text(kind.as_str(), "tool_use") {
            match doc.text_field("id") {
                Some(id) => match doc.text_field("name") {
                    Some(name) => Some(ContentBlock::ToolUseStart { id, name }),
                    None => None,
                },
                None => None,
            }
        } else {
            None
        },
        None => None,
    }
}

/// Reads a fragment.
pub fn read_delta(doc: &Json) -> (delta: Option<Delta>)
    ensures
        match delta {
            Some(d) => delta_of(doc@) == Some(d@),
            None => delta_of(doc@) is None,
        },
{
    match doc.text_field("type") {
        Some(kind) => if same_text(kind.as_str(), "text_delta") {
            match doc.text_field("text") {
                Some(text) => Some(Delta::TextDelta { text }),
                None => None,
            }
        } else if same_text(kind.as_str(), "input_json_delta") {
            match doc.text_field("partial_json") {
                Some(partial_json) => Some(Delta::InputJsonDelta { partial_json }),
                None => None,
            }
        } else {
            None
        },
        None => None,
    }
}

/// Reads the event that a payload stands for.
fn read_event(name: &str, doc: &Json) -> (event: Option<StreamEvent>)
    ensures
        match event {
            Some(e) => event_of(name@, doc@) == Some(e@),
            None => event_of(name@, doc@) is None,
        },
{
    let index = match read_index(doc) {
        Some(index) => index,
        None => { return None; },
    };
    if same_text(name, "content_block_start") {
        match doc.field("content_block") {
            Some(inner) => match read_block(inner) {
                Some(content_block) => Some(
                    StreamEvent::BlockStart(ContentBlockStart { index, content_block }),
                ),
                None => None,
            },
            None => None,
        }
    } else if same_text(name, "content_block_delta") {
        match doc.field("delta") {
            Some(inner) => match read_delta(inner) {
                Some(delta) => Some(StreamEvent::BlockDelta(ContentBlockDelta { index, delta })),
                None => None,
            },
            None => None,
        }
    } else if same_text(name, "content_block_stop") {
        Some(StreamEvent::BlockStop(ContentBlockStop { index }))
    } else {
        None
    }
}

/// Decodes an event whose payload has already been read as JSON; `parsed` is
/// `None` where the payload is no JSON.
pub fn decode_parsed(name: &str, parsed: Option<&Json>) -> (outcome: Result<
    Option<StreamEvent>,
    DecodeError,
>)
    ensures
        outcome_view(outcome) == decoded_from(
            name@,
            match parsed {
                Some(doc) => Some(doc@),
                None => None,
            },
        ),
{
    if !recognises(name) {
        return Ok(None);
    }
    match parsed {
        None => Err(DecodeError::Syntax),
        Some(doc) => match read_event(name, doc) {
            Some(event) => Ok(Some(event)),
            None => Err(DecodeError::Shape),
        },
    }
}

/// Decodes one message of the stream. An event that is not recognised gives
/// `Ok(None)`, whatever its payload holds; the payload of a recognised event
/// is read as JSON and must have the shape of that event.
pub fn decode_event(name: &str, data: &str) -> (outcome: Result<Option<StreamEvent>, DecodeError>)
    ensures
        outcome_view(outcome) == decoded(name@, data@),
{
    if !recognises(name) {
        return Ok(None);
    }
    let parsed = Json::parse(data);
    decode_parsed(name, parsed.as_ref())
}

/// Decoding is a function of the name and the payload text: two decodings of
/// one message give equal events.
pub proof fn lemma_decoding_is_repeatable(
    name: Seq<char>,
    data: Seq<char>,
    first: Result<Option<StreamEvent>, DecodeError>,
    second: Result<Option<StreamEvent>, DecodeError>,
)
    requires
        outcome_view(first) == decoded(name, data),
        outcome_view(second) == decoded(name, data),
    ensures
        outcome_view(first) == outcome_view(second),
{
}

} // verus!
