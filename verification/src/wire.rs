//! The request that goes out to the model service, as a JSON document: the
//! names of its members are what the service expects and are fixed here.

use crate::json::{lemma_array_view, lemma_object_view, Json, JsonView};
use crate::types::{
    assistant_items, conversation, user_items, AssistantContent, AssistantContentView,
    BashToolArgs, BashToolArgsView, Message, MessageView, UserContent, UserContentView,
};
use vstd::prelude::*;
use vstd::string::*;

verus! {

/// Where requests go.
pub open spec fn endpoint_url() -> Seq<char> {
    "https://api.anthropic.com/v1/messages"@
}

/// Where requests go.
pub fn endpoint() -> (url: String)
    ensures
        url@ == endpoint_url(),
{
    "https://api.anthropic.com/v1/messages".to_owned()
}

/// The number of tokens that one response may take.
pub const MAX_TOKENS: u64 = 1024;

/// The instructions that every request carries.
pub open spec fn system_prompt() -> Seq<char> {
    "You are Boosty, a helpful command line assistant. You help people accomplish programming tasks and learn new things."@
}

/// The wire form of the arguments of the shell tool.
pub open spec fn bash_args_json(args: BashToolArgsView) -> JsonView {
    JsonView::Object(seq![("command"@, JsonView::Text(args.command))])
}

/// The wire form of one item of a user message.
pub open spec fn user_item_json(item: UserContentView) -> JsonView {
    match item {
        UserContentView::Text { text } => JsonView::Object(
            seq![("type"@, JsonView::Text("text"@)), ("text"@, JsonView::Text(text))],
        ),
        UserContentView::ToolResult { tool_use_id, content } => JsonView::Object(
            seq![
                ("type"@, JsonView::Text("tool_result"@)),
                ("tool_use_id"@, JsonView::Text(tool_use_id)),
                ("content"@, JsonView::Text(content)),
            ],
        ),
    }
}

/// The wire form of one item of an assistant message.
pub open spec fn assistant_item_json(item: AssistantContentView) -> JsonView {
    match item {
        AssistantContentView::Text { text } => JsonView::Object(
            seq![("type"@, JsonView::Text("text"@)), ("text"@, JsonView::Text(text))],
        ),
        AssistantContentView::ToolUse { id, name, input } => JsonView::Object(
            seq![
                ("type"@, JsonView::Text("tool_use"@)),
                ("id"@, JsonView::Text(id)),
                ("name"@, JsonView::Text(name)),
                ("input"@, bash_args_json(input)),
            ],
        ),
        AssistantContentView::InvalidToolUse { id, name, raw } => JsonView::Object(
            seq![
                ("type"@, JsonView::Text("invalid_tool_use"@)),
                ("id"@, JsonView::Text(id)),
                ("name"@, JsonView::Text(name)),
                ("raw"@, JsonView::Text(raw)),
            ],
        ),
    }
}

/// The wire forms of the items of a user message.
pub open spec fn user_items_json(items: Seq<UserContentView>) -> Seq<JsonView> {
    items.map_values(|item: UserContentView| user_item_json(item))
}

/// The wire forms of the items of an assistant message.
pub open spec fn assistant_items_json(items: Seq<AssistantContentView>) -> Seq<JsonView> {
    items.map_values(|item: AssistantContentView| assistant_item_json(item))
}

/// The wire form of a message: its role, then its items.
pub open spec fn message_json(message: MessageView) -> JsonView {
    match message {
        MessageView::User { content } => JsonView::Object(
            seq![
                ("role"@, JsonView::Text("user"@)),
                ("content"@, JsonView::Array(user_items_json(content))),
            ],
        ),
        MessageView::Assistant { content } => JsonView::Object(
            seq![
                ("role"@, JsonView::Text("assistant"@)),
                ("content"@, JsonView::Array(assistant_items_json(content))),
            ],
        ),
    }
}

/// The wire forms of the messages of a conversation.
pub open spec fn messages_json(history: Seq<MessageView>) -> Seq<JsonView> {
    history.map_values(|message: MessageView| message_json(message))
}

/// The one tool that is offered to the model: the shell.
pub open spec fn tools_json() -> JsonView {
    JsonView::Array(
        seq![
            JsonView::Object(
                seq![
                    ("type"@, JsonView::Text("bash_20250124"@)),
                    ("name"@, JsonView::Text("bash"@)),
                ],
            ),
        ],
    )
}

/// The request for a streamed response of `model` to the whole of `history`.
pub open spec fn request_json(model: Seq<char>, history: Seq<MessageView>) -> JsonView {
    JsonView::Object(
        seq![
            ("model"@, JsonView::Text(model)),
            ("max_tokens"@, JsonView::Number(Some(MAX_TOKENS))),
            ("tools"@, tools_json()),
            ("stream"@, JsonView::Bool(true)),
            ("system"@, JsonView::Text(system_prompt())),
            ("messages"@, JsonView::Array(messages_json(history))),
        ],
    )
}

/// An object of one member.
fn object1(k0: &str, v0: Json) -> (doc: Json)
    ensures
        doc@ == JsonView::Object(seq![(k0@, v0@)]),
{
    let mut members: Vec<(String, Json)> = Vec::new();
    members.push((k0.to_owned(), v0));
    proof {
        lemma_object_view(members, seq![(k0@, v0@)]);
    }
    Json::Object(members)
}

/// An object of two members.
fn object2(k0: &str, v0: Json, k1: &str, v1: Json) -> (doc: Json)
    ensures
        doc@ == JsonView::Object(seq![(k0@, v0@), (k1@, v1@)]),
{
    let mut members: Vec<(String, Json)> = Vec::new();
    members.push((k0.to_owned(), v0));
    members.push((k1.to_owned(), v1));
    proof {
        lemma_object_view(members, seq![(k0@, v0@), (k1@, v1@)]);
    }
    Json::Object(members)
}

/// An object of three members.
fn object3(k0: &str, v0: Json, k1: &str, v1: Json, k2: &str, v2: Json) -> (doc: Json)
    ensures
        doc@ == JsonView::Object(seq![(k0@, v0@), (k1@, v1@), (k2@, v2@)]),
{
    let mut members: Vec<(String, Json)> = Vec::new();
    members.push((k0.to_owned(), v0));
    members.push((k1.to_owned(), v1));
    members.push((k2.to_owned(), v2));
    proof {
        lemma_object_view(members, seq![(k0@, v0@), (k1@, v1@), (k2@, v2@)]);
    }
    Json::Object(members)
}

/// An object of four members.
fn object4(
    k0: &str,
    v0: Json,
    k1: &str,
    v1: Json,
    k2: &str,
    v2: Json,
    k3: &str,
    v3: Json,
) -> (doc: Json)
    ensures
        doc@ == JsonView::Object(seq![(k0@, v0@), (k1@, v1@), (k2@, v2@), (k3@, v3@)]),
{
    let mut members: Vec<(String, Json)> = Vec::new();
    members.push((k0.to_owned(), v0));
    members.push((k1.to_owned(), v1));
    members.push((k2.to_owned(), v2));
    members.push((k3.to_owned(), v3));
    proof {
        lemma_object_view(members, seq![(k0@, v0@), (k1@, v1@), (k2@, v2@), (k3@, v3@)]);
    }
    Json::Object(members)
}

/// The arguments of the shell tool in their wire form.
pub fn bash_args_to_json(args: &BashToolArgs) -> (doc: Json)
    ensures
        doc@ == bash_args_json(args@),
{
    object1("command", Json::text(args.command.as_str()))
}

/// One item of a user message in its wire form.
pub fn user_item_to_json(item: &UserContent) -> (doc: Json)
    ensures
        doc@ == user_item_json(item@),
{
    match item {
        UserContent::Text { text } => object2(
            "type",
            Json::text("text"),
            "text",
            Json::text(text.as_str()),
        ),
        UserContent::ToolResult { tool_use_id, content } => object3(
            "type",
            Json::text("tool_result"),
            "tool_use_id",
            Json::text(tool_use_id.as_str()),
            "content",
            Json::text(content.as_str()),
        ),
    }
}

/// One item of an assistant message in its wire form.
pub fn assistant_item_to_json(item: &AssistantContent) -> (doc: Json)
    ensures
        doc@ == assistant_item_json(item@),
{
    match item {
        AssistantContent::Text { text } => object2(
            "type",
            Json::text("text"),
            "text",
            Json::text(text.as_str()),
        ),
        AssistantContent::ToolUse { id, name, input } => object4(
            "type",
            Json::text("tool_use"),
            "id",
            Json::text(id.as_str()),
            "name",
            Json::text(name.as_str()),
            "input",
            bash_args_to_json(input),
        ),
        AssistantContent::InvalidToolUse { id, name, raw } => object4(
            "type",
            Json::text("invalid_tool_use"),
            "id",
            Json::text(id.as_str()),
            "name",
            Json::text(name.as_str()),
            "raw",
            Json::text(raw.as_str()),
        ),
    }
}

/// A message in its wire form.
pub fn message_to_json(message: &Message) -> (doc: Json)
    ensures
        doc@ == message_json(message@),
{
    match message {
        Message::User { content } => {
            let mut items: Vec<Json> = Vec::new();
            let mut i: usize = 0;
            while i < content.len()
                invariant
                    i <= content.len(),
                    items@.len() == i,
                    forall|j: int|
                        0 <= j < i ==> (#[trigger] items@[j])@ == user_item_json(content@[j]@),
                decreases content.len() - i,
            {
                items.push(user_item_to_json(&content[i]));
                i += 1;
            }
            proof {
                lemma_array_view(items, user_items_json(user_items(content@)));
            }
            object2("role", Json::text("user"), "content", Json::Array(items))
        },
        Message::Assistant { content } => {
            let mut items: Vec<Json> = Vec::new();
            let mut i: usize = 0;
            while i < content.len()
                invariant
                    i <= content.len(),
                    items@.len() == i,
                    forall|j: int|
                        0 <= j < i ==> (#[trigger] items@[j])@ == assistant_item_json(
                            content@[j]@,
                        ),
                decreases content.len() - i,
            {
                items.push(assistant_item_to_json(&content[i]));
                i += 1;
            }
            proof {
                lemma_array_view(items, assistant_items_json(assistant_items(content@)));
            }
            object2("role", Json::text("assistant"), "content", Json::Array(items))
        },
    }
}

/// The request for a streamed response of `model` to the whole of `history`.
pub fn request_to_json(model: &str, history: &Vec<Message>) -> (doc: Json)
    ensures
        doc@ == request_json(model@, conversation(history@)),
{
    let mut messages: Vec<Json> = Vec::new();
    let mut i: usize = 0;
    while i < history.len()
        invariant
            i <= history.len(),
            messages@.len() == i,
            forall|j: int| 0 <= j < i ==> (#[trigger] messages@[j])@ == message_json(history@[j]@),
        decreases history.len() - i,
    {
        messages.push(message_to_json(&history[i]));
        i += 1;
    }
    let mut tools: Vec<Json> = Vec::new();
    tools.push(object2("type", Json::text("bash_20250124"), "name", Json::text("bash")));
    proof {
        lemma_array_view(messages, messages_json(conversation(history@)));
        lemma_array_view(tools, tools_json()->Array_0);
    }
    let mut members: Vec<(String, Json)> = Vec::new();
    members.push(("model".to_owned(), Json::text(model)));
    members.push(("max_tokens".to_owned(), Json::Number(Some(MAX_TOKENS))));
    members.push(("tools".to_owned(), Json::Array(tools)));
    members.push(("stream".to_owned(), Json::Bool(true)));
    members.push(
        (
            "system".to_owned(),
            Json::text(
                "You are Boosty, a helpful command line assistant. You help people accomplish programming tasks and learn new things.",
            ),
        ),
    );
    members.push(("messages".to_owned(), Json::Array(messages)));
    proof {
        lemma_object_view(members, request_json(model@, conversation(history@))->Object_0);
    }
    Json::Object(members)
}

} // verus!
