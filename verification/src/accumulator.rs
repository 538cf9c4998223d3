//! The content block accumulator: per block index, the text or the argument
//! text that has arrived so far, from the block's start to its stop.

use crate::json::{json_of_text, Json, JsonView};
use crate::types::{
    AssistantContent, AssistantContentView, BashToolArgs, BashToolArgsView, ContentBlock,
    ContentBlockView, Delta, DeltaView, StreamEvent, StreamEventView, TextMessage, ToolCall,
    ToolCallView,
};
use std::collections::HashMap;
use vstd::prelude::*;

verus! {

/// An event that does not fit the blocks that are open.
#[derive(Clone, Copy, Debug, PartialEq, Eq)]
pub enum ProtocolError {
    /// A block was started under an index that is still open.
    IndexInUse,
    /// A fragment or a stop came for an index under which no block is open.
    NoOpenBlock,
    /// A text fragment came for a tool invocation, or argument text for a
    /// text block.
    WrongKind,
}

impl ProtocolError {
    /// What the error says.
    pub open spec fn text(self) -> Seq<char> {
        match self {
            ProtocolError::IndexInUse => "a block was started under an index that is open"@,
            ProtocolError::NoOpenBlock => "no block is open under the index"@,
            ProtocolError::WrongKind => "the fragment is not of the kind of its block"@,
        }
    }

    /// What the error says, for the operator.
    pub fn message(&self) -> (message: String)
        ensures
            message@ == self.text(),
    {
        match self {
            ProtocolError::IndexInUse => "a block was started under an index that is open".to_owned(),
            ProtocolError::NoOpenBlock => "no block is open under the index".to_owned(),
            ProtocolError::WrongKind => "the fragment is not of the kind of its block".to_owned(),
        }
    }
}

/// An open block.
#[derive(Clone, Debug, PartialEq, Eq)]
pub enum Slot {
    Text(TextMessage),
    Tool(ToolCall),
}

/// What an open block holds: a text buffer, or the identity of a tool
/// invocation with its argument buffer.
pub enum SlotView {
    Text { text: Seq<char> },
    Tool { id: Seq<char>, name: Seq<char>, args: Seq<char> },
}

impl View for Slot {
    type V = SlotView;

    open spec fn view(&self) -> SlotView {
        match self {
            Slot::Text(message) => SlotView::Text { text: message.text@ },
            Slot::Tool(call) => SlotView::Tool {
                id: call.id@,
                name: call.name@,
                args: call.args_json@,
            },
        }
    }
}

impl SlotView {
    /// The slot with `more` appended to its buffer.
    pub open spec fn grown(self, more: Seq<char>) -> SlotView {
        match self {
            SlotView::Text { text } => SlotView::Text { text: text + more },
            SlotView::Tool { id, name, args } => SlotView::Tool { id, name, args: args + more },
        }
    }
}

/// The slot that a starting block opens: a text block is seeded with its
/// initial text, a tool invocation starts with no argument text.
pub open spec fn opened(block: ContentBlockView) -> SlotView {
    match block {
        ContentBlockView::TextStart { text } => SlotView::Text { text },
        ContentBlockView::ToolUseStart { id, name } => SlotView::Tool {
            id,
            name,
            args: Seq::empty(),
        },
    }
}

/// What is shown to the user when a block starts: the initial text of a text
/// block, nothing for a tool invocation.
pub open spec fn start_echo(block: ContentBlockView) -> Option<Seq<char>> {
    match block {
        ContentBlockView::TextStart { text } => Some(text),
        ContentBlockView::ToolUseStart { .. } => None,
    }
}

/// What is shown to the user when a fragment arrives: a text fragment as it
/// is, nothing for argument text.
pub open spec fn delta_echo(delta: DeltaView) -> Option<Seq<char>> {
    match delta {
        DeltaView::TextDelta { text } => Some(text),
        DeltaView::InputJsonDelta { .. } => None,
    }
}

/// The characters that a fragment carries.
pub open spec fn fragment(delta: DeltaView) -> Seq<char> {
    match delta {
        DeltaView::TextDelta { text } => text,
        DeltaView::InputJsonDelta { partial_json } => partial_json,
    }
}

/// Whether a fragment is of the kind that a slot collects.
pub open spec fn fits(slot: SlotView, delta: DeltaView) -> bool {
    (slot is Text && delta is TextDelta) || (slot is Tool && delta is InputJsonDelta)
}

/// The open blocks after a block starts under `index`.
pub open spec fn started(slots: Map<u32, SlotView>, index: u32, block: ContentBlockView) -> Result<
    Map<u32, SlotView>,
    ProtocolError,
> {
    if slots.contains_key(index) {
        Err(ProtocolError::IndexInUse)
    } else {
        Ok(slots.insert(index, opened(block)))
    }
}

/// The open blocks after a fragment arrives for `index`.
pub open spec fn extended(slots: Map<u32, SlotView>, index: u32, delta: DeltaView) -> Result<
    Map<u32, SlotView>,
    ProtocolError,
> {
    if !slots.contains_key(index) {
        Err(ProtocolError::NoOpenBlock)
    } else if !fits(slots[index], delta) {
        Err(ProtocolError::WrongKind)
    } else {
        Ok(slots.insert(index, slots[index].grown(fragment(delta))))
    }
}

/// The open blocks after the block under `index` stops, and what it held.
pub open spec fn stopped(slots: Map<u32, SlotView>, index: u32) -> Result<
    (Map<u32, SlotView>, SlotView),
    ProtocolError,
> {
    if !slots.contains_key(index) {
        Err(ProtocolError::NoOpenBlock)
    } else {
        Ok((slots.remove(index), slots[index]))
    }
}

/// What one event does: the open blocks after it, what is shown to the user,
/// and the block that it closed.
pub struct StepView {
    pub slots: Map<u32, SlotView>,
    pub echo: Option<Seq<char>>,
    pub closed: Option<SlotView>,
}

/// The effect of one event on the open blocks.
pub open spec fn step(slots: Map<u32, SlotView>, event: StreamEventView) -> Result<
    StepView,
    ProtocolError,
> {
    match event {
        StreamEventView::BlockStart { index, block } => match started(slots, index, block) {
            Ok(after) => Ok(StepView { slots: after, echo: start_echo(block), closed: None }),
            Err(e) => Err(e),
        },
        StreamEventView::BlockDelta { index, delta } => match extended(slots, index, delta) {
            Ok(after) => Ok(StepView { slots: after, echo: delta_echo(delta), closed: None }),
            Err(e) => Err(e),
        },
        StreamEventView::BlockStop { index } => match stopped(slots, index) {
            Ok((after, slot)) => Ok(StepView { slots: after, echo: None, closed: Some(slot) }),
            Err(e) => Err(e),
        },
    }
}

/// The arguments of the shell tool as a document gives them: an object whose
/// member `command` is a JSON string. Other members are not looked at.
pub open spec fn bash_args_of(doc: JsonView) -> Option<BashToolArgsView> {
    match doc.text_field("command"@) {
        Some(command) => Some(BashToolArgsView { command }),
        None => None,
    }
}

/// The content item that a tool invocation becomes, given what reading its
/// argument text `raw` as JSON gave (`parsed`, `None` where it is no JSON).
pub open spec fn tool_content(
    id: Seq<char>,
    name: Seq<char>,
    raw: Seq<char>,
    parsed: Option<JsonView>,
) -> AssistantContentView {
    let args = match parsed {
        Some(doc) => bash_args_of(doc),
        None => None,
    };
    match args {
        Some(input) => AssistantContentView::ToolUse { id, name, input },
        None => AssistantContentView::InvalidToolUse { id, name, raw },
    }
}

/// The content item that a closed block becomes.
pub open spec fn content_of(slot: SlotView) -> AssistantContentView {
    match slot {
        SlotView::Text { text } => AssistantContentView::Text { text },
        SlotView::Tool { id, name, args } => tool_content(id, name, args, json_of_text(args)),
    }
}

/// The views of the slots of a map.
pub open spec fn slot_views(slots: Map<u32, Slot>) -> Map<u32, SlotView> {
    slots.map_values(|slot: Slot| slot@)
}

/// The open blocks of one streamed response, by block index.
pub struct Accumulator {
    slots: HashMap<u32, Slot>,
}

impl View for Accumulator {
    type V = Map<u32, SlotView>;

    closed spec fn view(&self) -> Map<u32, SlotView> {
        slot_views(self.slots@)
    }
}

/// What an event gave: text to show to the user, and the block that it closed.
#[derive(Clone, Debug, PartialEq, Eq)]
pub struct Progress {
    pub echo: Option<String>,
    pub closed: Option<Slot>,
}

impl Progress {
    /// The text to show, as characters.
    pub open spec fn echo_view(&self) -> Option<Seq<char>> {
        match self.echo {
            Some(text) => Some(text@),
            None => None,
        }
    }

    /// The closed block, as its view.
    pub open spec fn closed_view(&self) -> Option<SlotView> {
        match self.closed {
            Some(slot) => Some(slot@),
            None => None,
        }
    }
}

impl Accumulator {
    /// An accumulator with no open block.
    pub fn new() -> (acc: Accumulator)
        ensures
            acc@ == Map::<u32, SlotView>::empty(),
    {
        let acc = Accumulator { slots: HashMap::new() };
        assert(acc@ =~= Map::<u32, SlotView>::empty());
        acc
    }

    /// Whether a block is open under `index`.
    pub fn is_open(&self, index: u32) -> (open: bool)
        ensures
            open == self@.contains_key(index),
    {
        self.slots.contains_key(&index)
    }

    /// Opens a block under `index`. Returns the text to show to the user.
    pub fn start(&mut self, index: u32, block: ContentBlock) -> (shown: Result<
        Option<String>,
        ProtocolError,
    >)
        ensures
            match started(old(self)@, index, block@) {
                Ok(after) => final(self)@ == after && match shown {
                    Ok(Some(text)) => start_echo(block@) == Some(text@),
                    Ok(None) => start_echo(block@) is None,
                    Err(_) => false,
                },
                Err(e) => final(self)@ == old(self)@ && shown == Err::<Option<String>, _>(e),
            },
    {
        if self.slots.contains_key(&index) {
            return Err(ProtocolError::IndexInUse);
        }
        match block {
            ContentBlock::TextStart { text } => {
                let shown = text.clone();
                self.slots.insert(index, Slot::Text(TextMessage { text }));
                assert(self@ =~= old(self)@.insert(index, opened(block@)));
                Ok(Some(shown))
            },
            ContentBlock::ToolUseStart { id, name } => {
                self.slots.insert(index, Slot::Tool(ToolCall::new(id, name)));
                assert(self@ =~= old(self)@.insert(index, opened(block@)));
                Ok(None)
            },
        }
    }

    /// Appends a fragment to the block under `index`. Returns the text to show
    /// to the user.
    pub fn delta(&mut self, index: u32, delta: Delta) -> (shown: Result<
        Option<String>,
        ProtocolError,
    >)
        ensures
            match extended(old(self)@, index, delta@) {
                Ok(after) => final(self)@ == after && match shown {
                    Ok(Some(text)) => delta_echo(delta@) == Some(text@),
                    Ok(None) => delta_echo(delta@) is None,
                    Err(_) => false,
                },
                Err(e) => final(self)@ == old(self)@ && shown == Err::<Option<String>, _>(e),
            },
    {
        let slot = match self.slots.remove(&index) {
            Some(slot) => slot,
            None => {
                assert(self@ =~= old(self)@);
                return Err(ProtocolError::NoOpenBlock);
            },
        };
        match (slot, delta) {
            (Slot::Text(message), Delta::TextDelta { text }) => {
                let mut buffer = message.text;
                buffer.append(text.as_str());
                self.slots.insert(index, Slot::Text(TextMessage { text: buffer }));
                assert(self@ =~= old(self)@.insert(
                    index,
                    old(self)@[index].grown(fragment(delta@)),
                ));
                Ok(Some(text))
            },
            (Slot::Tool(call), Delta::InputJsonDelta { partial_json }) => {
                let mut buffer = call.args_json;
                buffer.append(partial_json.as_str());
                self.slots.insert(
                    index,
                    Slot::Tool(
                        ToolCall {
                            id: call.id,
                            name: call.name,
                            args_json: buffer,
                            args_parsed: call.args_parsed,
                        },
                    ),
                );
                assert(self@ =~= old(self)@.insert(
                    index,
                    old(self)@[index].grown(fragment(delta@)),
                ));
                Ok(None)
            },
            (slot, _) => {
                self.slots.insert(index, slot);
                assert(self@ =~= old(self)@);
                Err(ProtocolError::WrongKind)
            },
        }
    }

    /// Closes the block under `index` and hands out what it held.
    pub fn stop(&mut self, index: u32) -> (closed: Result<Slot, ProtocolError>)
        ensures
            match stopped(old(self)@, index) {
                Ok((after, slot)) => final(self)@ == after && match closed {
                    Ok(s) => s@ == slot,
                    Err(_) => false,
                },
                Err(e) => final(self)@ == old(self)@ && closed == Err::<Slot, _>(e),
            },
    {
        match self.slots.remove(&index) {
            Some(slot) => {
                assert(self@ =~= old(self)@.remove(index));
                Ok(slot)
            },
            None => {
                assert(self@ =~= old(self)@);
                Err(ProtocolError::NoOpenBlock)
            },
        }
    }

    /// Applies one event of the stream.
    pub fn apply(&mut self, event: StreamEvent) -> (progress: Result<Progress, ProtocolError>)
        ensures
            match step(old(self)@, event@) {
                Ok(next) => final(self)@ == next.slots && match progress {
                    Ok(p) => p.echo_view() == next.echo && p.closed_view() == next.closed,
                    Err(_) => false,
                },
                Err(e) => final(self)@ == old(self)@ && progress == Err::<Progress, _>(e),
            },
    {
        match event {
            StreamEvent::BlockStart(start) => match self.start(start.index, start.content_block) {
                Ok(echo) => Ok(Progress { echo, closed: None }),
                Err(e) => Err(e),
            },
            StreamEvent::BlockDelta(delta) => match self.delta(delta.index, delta.delta) {
                Ok(echo) => Ok(Progress { echo, closed: None }),
                Err(e) => Err(e),
            },
            StreamEvent::BlockStop(stop) => match self.stop(stop.index) {
                Ok(slot) => Ok(Progress { echo: None, closed: Some(slot) }),
                Err(e) => Err(e),
            },
        }
    }
}

/// Reads the arguments of the shell tool out of a document.
pub fn read_bash_args(doc: &Json) -> (args: Option<BashToolArgs>)
    ensures
        match args {
            Some(a) => bash_args_of(doc@) == Some(a@),
            None => bash_args_of(doc@) is None,
        },
{
    match doc.text_field("command") {
        Some(command) => Some(BashToolArgs { command }),
        None => None,
    }
}

impl ToolCall {
    /// The invocation with its arguments read out of what its argument text
    /// gave as JSON (`parsed`, `None` where the text is no JSON).
    pub fn with_args(self, parsed: Option<&Json>) -> (call: ToolCall)
        ensures
            call@ == (ToolCallView {
                args_parsed: match parsed {
                    Some(doc) => bash_args_of(doc@),
                    None => None,
                },
                ..self@
            }),
    {
        let args_parsed = match parsed {
            Some(doc) => read_bash_args(doc),
            None => None,
        };
        ToolCall { id: self.id, name: self.name, args_json: self.args_json, args_parsed }
    }

    /// The content item that the invocation becomes: a tool use where its
    /// arguments have been read, and otherwise an invalid tool use that keeps
    /// the argument text as it arrived.
    pub fn into_content(self) -> (item: AssistantContent)
        ensures
            item@ == match self@.args_parsed {
                Some(input) => AssistantContentView::ToolUse {
                    id: self@.id,
                    name: self@.name,
                    input,
                },
                None => AssistantContentView::InvalidToolUse {
                    id: self@.id,
                    name: self@.name,
                    raw: self@.args_json,
                },
            },
    {
        match self.args_parsed {
            Some(input) => AssistantContent::ToolUse { id: self.id, name: self.name, input },
            None => AssistantContent::InvalidToolUse {
                id: self.id,
                name: self.name,
                raw: self.args_json,
            },
        }
    }
}

/// Turns a tool invocation whose argument text is complete into a content
/// item, given what reading that text as JSON gave: a tool use where the
/// document holds the tool's arguments, and otherwise an invalid tool use that
/// keeps the text as it arrived.
pub fn finish_tool_call(call: ToolCall, parsed: Option<&Json>) -> (item: AssistantContent)
    ensures
        item@ == tool_content(
            call.id@,
            call.name@,
            call.args_json@,
            match parsed {
                Some(doc) => Some(doc@),
                None => None,
            },
        ),
{
    call.with_args(parsed).into_content()
}

/// Turns a closed block into a content item. The argument text of a tool
/// invocation is read as JSON here.
pub fn finish_slot(slot: Slot) -> (item: AssistantContent)
    ensures
        item@ == content_of(slot@),
{
    match slot {
        Slot::Text(message) => AssistantContent::Text { text: message.text },
        Slot::Tool(call) => {
            let parsed = Json::parse(call.args_json.as_str());
            finish_tool_call(call, parsed.as_ref())
        },
    }
}

/// A tool invocation becomes a tool use exactly where its argument text is
/// JSON that holds the tool's arguments; in every other case it becomes an
/// invalid tool use that carries the argument text as it arrived.
pub proof fn lemma_tool_use_or_raw_text(
    id: Seq<char>,
    name: Seq<char>,
    raw: Seq<char>,
    parsed: Option<JsonView>,
)
    ensures
        (parsed is Some && bash_args_of(parsed->Some_0) is Some) ==> tool_content(
            id,
            name,
            raw,
            parsed,
        ) == (AssistantContentView::ToolUse {
            id,
            name,
            input: bash_args_of(parsed->Some_0)->Some_0,
        }),
        !(parsed is Some && bash_args_of(parsed->Some_0) is Some) ==> tool_content(
            id,
            name,
            raw,
            parsed,
        ) == (AssistantContentView::InvalidToolUse { id, name, raw }),
{
}

/// The open blocks after a sequence of events, applied in the order of
/// arrival; the first event that does not fit is the error.
pub open spec fn run(slots: Map<u32, SlotView>, events: Seq<StreamEventView>) -> Result<
    Map<u32, SlotView>,
    ProtocolError,
>
    decreases events.len(),
{
    if events.len() == 0 {
        Ok(slots)
    } else {
        match run(slots, events.drop_last()) {
            Ok(before) => match step(before, events.last()) {
                Ok(next) => Ok(next.slots),
                Err(e) => Err(e),
            },
            Err(e) => Err(e),
        }
    }
}

/// The characters of the fragments that `events` hold for `index`, in the
/// order of arrival.
pub open spec fn fragments_for(events: Seq<StreamEventView>, index: u32) -> Seq<char>
    decreases events.len(),
{
    if events.len() == 0 {
        Seq::empty()
    } else {
        let earlier = fragments_for(events.drop_last(), index);
        match events.last() {
            StreamEventView::BlockDelta { index: i, delta } => if i == index {
                earlier + fragment(delta)
            } else {
                earlier
            },
            _ => earlier,
        }
    }
}

/// Whether no event of `events` stops the block under `index`.
pub open spec fn leaves_open(events: Seq<StreamEventView>, index: u32) -> bool {
    forall|k: int| 0 <= k < events.len() ==> events[k] != StreamEventView::BlockStop { index }
}

/// Running two sequences of events one after the other is running their
/// concatenation.
pub proof fn lemma_run_concat(
    slots: Map<u32, SlotView>,
    first: Seq<StreamEventView>,
    second: Seq<StreamEventView>,
)
    ensures
        run(slots, first + second) == match run(slots, first) {
            Ok(between) => run(between, second),
            Err(e) => Err(e),
        },
    decreases second.len(),
{
    if second.len() == 0 {
        assert(first + second =~= first);
    } else {
        assert((first + second).drop_last() =~= first + second.drop_last());
        assert((first + second).last() == second.last());
        lemma_run_concat(slots, first, second.drop_last());
    }
}

/// A block that is open and is not stopped holds, after any events that the
/// accumulator accepts, what it held before followed by the fragments that
/// came for its index, in the order of arrival. Events for other indices,
/// however they are interleaved, do not touch it.
pub proof fn lemma_open_block_collects_its_fragments(
    slots: Map<u32, SlotView>,
    events: Seq<StreamEventView>,
    index: u32,
)
    requires
        slots.contains_key(index),
        leaves_open(events, index),
        run(slots, events) is Ok,
    ensures
        run(slots, events)->Ok_0.contains_key(index),
        run(slots, events)->Ok_0[index] == slots[index].grown(fragments_for(events, index)),
    decreases events.len(),
{
    if events.len() == 0 {
        match slots[index] {
            SlotView::Text { text } => {
                assert(text + Seq::<char>::empty() =~= text);
            },
            SlotView::Tool { id, name, args } => {
                assert(args + Seq::<char>::empty() =~= args);
            },
        }
    } else {
        let earlier = events.drop_last();
        assert(leaves_open(earlier, index)) by {
            assert forall|k: int| 0 <= k < earlier.len() implies earlier[k]
                != (StreamEventView::BlockStop { index }) by {
                assert(earlier[k] == events[k]);
            }
        }
        lemma_open_block_collects_its_fragments(slots, earlier, index);
        let before = run(slots, earlier)->Ok_0;
        let held = fragments_for(earlier, index);
        assert(events.last() == events[events.len() - 1]);
        match events.last() {
            StreamEventView::BlockDelta { index: i, delta } => {
                if i == index {
                    match slots[index] {
                        SlotView::Text { text } => {
                            assert((text + held) + fragment(delta) =~= text + (held + fragment(
                                delta,
                            )));
                        },
                        SlotView::Tool { id, name, args } => {
                            assert((args + held) + fragment(delta) =~= args + (held + fragment(
                                delta,
                            )));
                        },
                    }
                }
            },
            _ => {},
        }
    }
}

/// A block that starts, receives fragments and stops gives, at its stop, its
/// initial content followed by the fragments that came for its index between
/// start and stop, in the order of arrival, whatever came for other indices
/// in between.
pub proof fn lemma_block_is_its_concatenation(
    slots: Map<u32, SlotView>,
    index: u32,
    block: ContentBlockView,
    events: Seq<StreamEventView>,
)
    requires
        leaves_open(events, index),
        run(slots, seq![StreamEventView::BlockStart { index, block }] + events) is Ok,
    ensures
        stopped(
            run(slots, seq![StreamEventView::BlockStart { index, block }] + events)->Ok_0,
            index,
        ) is Ok,
        stopped(
            run(slots, seq![StreamEventView::BlockStart { index, block }] + events)->Ok_0,
            index,
        )->Ok_0.1 == opened(block).grown(fragments_for(events, index)),
{
    let start = seq![StreamEventView::BlockStart { index, block }];
    lemma_run_concat(slots, start, events);
    assert(start.drop_last() =~= Seq::<StreamEventView>::empty());
    assert(run(slots, start.drop_last()) == Ok::<Map<u32, SlotView>, ProtocolError>(slots));
    assert(start.last() == StreamEventView::BlockStart { index, block });
    let between = run(slots, start)->Ok_0;
    assert(between == slots.insert(index, opened(block)));
    lemma_open_block_collects_its_fragments(between, events, index);
}

} // verus!
