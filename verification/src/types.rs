//! The data that flows through a session: streamed events, the content of
//! messages, and the conversation itself. Each type has a view over sequences
//! of characters, which is what the contracts speak of.

use vstd::prelude::*;

verus! {

// Streamed events

/// What opens a content block.
#[derive(Clone, Debug, PartialEq, Eq)]
pub enum ContentBlock {
    /// A run of text, with the text it starts with.
    TextStart { text: String },
    /// A tool invocation; its arguments follow as fragments of JSON text.
    ToolUseStart { id: String, name: String },
}

pub enum ContentBlockView {
    TextStart { text: Seq<char> },
    ToolUseStart { id: Seq<char>, name: Seq<char> },
}

impl View for ContentBlock {
    type V = ContentBlockView;

    open spec fn view(&self) -> ContentBlockView {
        match self {
            ContentBlock::TextStart { text } => ContentBlockView::TextStart { text: text@ },
            ContentBlock::ToolUseStart { id, name } => ContentBlockView::ToolUseStart {
                id: id@,
                name: name@,
            },
        }
    }
}

/// A fragment that extends an open content block.
#[derive(Clone, Debug, PartialEq, Eq)]
pub enum Delta {
    TextDelta { text: String },
    InputJsonDelta { partial_json: String },
}

pub enum DeltaView {
    TextDelta { text: Seq<char> },
    InputJsonDelta { partial_json: Seq<char> },
}

impl View for Delta {
    type V = DeltaView;

    open spec fn view(&self) -> DeltaView {
        match self {
            Delta::TextDelta { text } => DeltaView::TextDelta { text: text@ },
            Delta::InputJsonDelta { partial_json } => DeltaView::InputJsonDelta {
                partial_json: partial_json@,
            },
        }
    }
}

#[derive(Clone, Debug, PartialEq, Eq)]
pub struct ContentBlockStart {
    pub index: u32,
    pub content_block: ContentBlock,
}

#[derive(Clone, Debug, PartialEq, Eq)]
pub struct ContentBlockDelta {
    pub index: u32,
    pub delta: Delta,
}

#[derive(Clone, Debug, PartialEq, Eq)]
pub struct ContentBlockStop {
    pub index: u32,
}

/// One decoded event of the stream.
#[derive(Clone, Debug, PartialEq, Eq)]
pub enum StreamEvent {
    BlockStart(ContentBlockStart),
    BlockDelta(ContentBlockDelta),
    BlockStop(ContentBlockStop),
}

pub enum StreamEventView {
    BlockStart { index: u32, block: ContentBlockView },
    BlockDelta { index: u32, delta: DeltaView },
    BlockStop { index: u32 },
}

impl View for StreamEvent {
    type V = StreamEventView;

    open spec fn view(&self) -> StreamEventView {
        match self {
            StreamEvent::BlockStart(start) => StreamEventView::BlockStart {
                index: start.index,
                block: start.content_block@,
            },
            StreamEvent::BlockDelta(delta) => StreamEventView::BlockDelta {
                index: delta.index,
                delta: delta.delta@,
            },
            StreamEvent::BlockStop(stop) => StreamEventView::BlockStop { index: stop.index },
        }
    }
}

// Tools

/// The arguments of the shell tool.
#[derive(Clone, Debug, PartialEq, Eq)]
pub struct BashToolArgs {
    pub command: String,
}

pub struct BashToolArgsView {
    pub command: Seq<char>,
}

impl View for BashToolArgs {
    type V = BashToolArgsView;

    open spec fn view(&self) -> BashToolArgsView {
        BashToolArgsView { command: self.command@ }
    }
}

/// A tool invocation under assembly: its identity, the JSON text of its
/// arguments as far as it has arrived, and the arguments once that text has
/// been read.
#[derive(Clone, Debug, PartialEq, Eq)]
pub struct ToolCall {
    pub id: String,
    pub name: String,
    pub args_json: String,
    pub args_parsed: Option<BashToolArgs>,
}

pub struct ToolCallView {
    pub id: Seq<char>,
    pub name: Seq<char>,
    pub args_json: Seq<char>,
    pub args_parsed: Option<BashToolArgsView>,
}

impl View for ToolCall {
    type V = ToolCallView;

    open spec fn view(&self) -> ToolCallView {
        ToolCallView {
            id: self.id@,
            name: self.name@,
            args_json: self.args_json@,
            args_parsed: match self.args_parsed {
                Some(args) => Some(args@),
                None => None,
            },
        }
    }
}

impl ToolCall {
    /// A tool invocation of which no argument text has arrived yet.
    pub fn new(id: String, name: String) -> (call: ToolCall)
        ensures
            call@ == (ToolCallView {
                id: id@,
                name: name@,
                args_json: Seq::empty(),
                args_parsed: None,
            }),
    {
        ToolCall { id, name, args_json: String::new(), args_parsed: None }
    }
}

/// A run of text under assembly.
#[derive(Clone, Debug, PartialEq, Eq)]
pub struct TextMessage {
    pub text: String,
}

impl View for TextMessage {
    type V = Seq<char>;

    open spec fn view(&self) -> Seq<char> {
        self.text@
    }
}

// Messages

/// One item of a user message.
#[derive(Clone, Debug, PartialEq, Eq)]
pub enum UserContent {
    Text { text: String },
    /// What running, or refusing, the tool call `tool_use_id` produced.
    ToolResult { tool_use_id: String, content: String },
}

pub enum UserContentView {
    Text { text: Seq<char> },
    ToolResult { tool_use_id: Seq<char>, content: Seq<char> },
}

impl View for UserContent {
    type V = UserContentView;

    open spec fn view(&self) -> UserContentView {
        match self {
            UserContent::Text { text } => UserContentView::Text { text: text@ },
            UserContent::ToolResult { tool_use_id, content } => UserContentView::ToolResult {
                tool_use_id: tool_use_id@,
                content: content@,
            },
        }
    }
}

/// One item of an assistant message.
#[derive(Clone, Debug, PartialEq, Eq)]
pub enum AssistantContent {
    Text { text: String },
    /// A tool invocation whose arguments were read.
    ToolUse { id: String, name: String, input: BashToolArgs },
    /// A tool invocation whose argument text could not be read; `raw` is that
    /// text as it arrived.
    InvalidToolUse { id: String, name: String, raw: String },
}

pub enum AssistantContentView {
    Text { text: Seq<char> },
    ToolUse { id: Seq<char>, name: Seq<char>, input: BashToolArgsView },
    InvalidToolUse { id: Seq<char>, name: Seq<char>, raw: Seq<char> },
}

impl View for AssistantContent {
    type V = AssistantContentView;

    open spec fn view(&self) -> AssistantContentView {
        match self {
            AssistantContent::Text { text } => AssistantContentView::Text { text: text@ },
            AssistantContent::ToolUse { id, name, input } => AssistantContentView::ToolUse {
                id: id@,
                name: name@,
                input: input@,
            },
            AssistantContent::InvalidToolUse { id, name, raw } => {
                AssistantContentView::InvalidToolUse { id: id@, name: name@, raw: raw@ }
            },
        }
    }
}

/// One message of the conversation.
#[derive(Clone, Debug, PartialEq, Eq)]
#[allow(inconsistent_fields)]
pub enum Message {
    User { content: Vec<UserContent> },
    Assistant { content: Vec<AssistantContent> },
}

#[allow(inconsistent_fields)]
pub enum MessageView {
    User { content: Seq<UserContentView> },
    Assistant { content: Seq<AssistantContentView> },
}

/// The views of the items of a user message.
pub open spec fn user_items(items: Seq<UserContent>) -> Seq<UserContentView> {
    items.map_values(|item: UserContent| item@)
}

/// The views of the items of an assistant message.
pub open spec fn assistant_items(items: Seq<AssistantContent>) -> Seq<AssistantContentView> {
    items.map_values(|item: AssistantContent| item@)
}

impl View for Message {
    type V = MessageView;

    open spec fn view(&self) -> MessageView {
        match self {
            Message::User { content } => MessageView::User { content: user_items(content@) },
            Message::Assistant { content } => MessageView::Assistant {
                content: assistant_items(content@),
            },
        }
    }
}

/// The views of the messages of a conversation.
pub open spec fn conversation(messages: Seq<Message>) -> Seq<MessageView> {
    messages.map_values(|message: Message| message@)
}

/// Appending one message to a conversation appends its view.
pub proof fn lemma_conversation_push(messages: Seq<Message>, message: Message)
    ensures
        conversation(messages.push(message)) == conversation(messages).push(message@),
{
    assert(conversation(messages.push(message)) =~= conversation(messages).push(message@));
}

/// Appending one item to an assistant message appends its view.
pub proof fn lemma_assistant_items_push(items: Seq<AssistantContent>, item: AssistantContent)
    ensures
        assistant_items(items.push(item)) == assistant_items(items).push(item@),
{
    assert(assistant_items(items.push(item)) =~= assistant_items(items).push(item@));
}

// Permissions

/// How tool calls are authorised.
#[derive(Clone, Copy, Debug, PartialEq, Eq)]
pub enum AgentPermissions {
    /// Every command runs without asking.
    AllowAll,
    /// Every command needs an explicit yes.
    ConfirmAll,
}

} // verus!
