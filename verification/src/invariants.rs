//! What holds of a session whatever happens: every tool use in the
//! conversation has its result before a request goes out, no command runs
//! that the user has refused, and a turn sends no more requests than it may.

use crate::agent::{
    may_send_more, one_more, result_message, ActionView, AgentView, PhaseView, TurnError,
};
use crate::decode::DecodeError;
use crate::confirm::{rejection_text, says_yes, DecisionView};
use crate::types::{AssistantContentView, MessageView, StreamEventView, UserContentView};
use vstd::prelude::*;

verus! {

/// The ids of the tool uses among the items of an assistant message, in
/// their order.
pub open spec fn calls(items: Seq<AssistantContentView>) -> Seq<Seq<char>>
    decreases items.len(),
{
    if items.len() == 0 {
        Seq::empty()
    } else {
        let earlier = calls(items.drop_last());
        match items.last() {
            AssistantContentView::ToolUse { id, .. } => earlier.push(id),
            _ => earlier,
        }
    }
}

/// The ids that the tool results among the items of a user message answer,
/// in their order.
pub open spec fn results(items: Seq<UserContentView>) -> Seq<Seq<char>>
    decreases items.len(),
{
    if items.len() == 0 {
        Seq::empty()
    } else {
        let earlier = results(items.drop_last());
        match items.last() {
            UserContentView::ToolResult { tool_use_id, .. } => earlier.push(tool_use_id),
            _ => earlier,
        }
    }
}

/// Whether the message at `k` has its answers: an assistant message that
/// holds tool uses is followed at once by a user message that holds exactly
/// one result for each of them, in the same order.
pub open spec fn answered_at(history: Seq<MessageView>, k: int) -> bool {
    match history[k] {
        MessageView::Assistant { content } => calls(content).len() == 0 || (k + 1 < history.len()
            && match history[k + 1] {
            MessageView::User { content: reply } => results(reply) == calls(content),
            MessageView::Assistant { .. } => false,
        }),
        MessageView::User { .. } => true,
    }
}

/// Whether every tool use of the conversation has its result.
pub open spec fn paired(history: Seq<MessageView>) -> bool {
    forall|k: int| 0 <= k < history.len() ==> #[trigger] answered_at(history, k)
}

/// Whether the conversation ends with an assistant message whose one tool use
/// is `id`, and everything before it has its results.
pub open spec fn awaits_result(history: Seq<MessageView>, id: Seq<char>) -> bool {
    &&& history.len() > 0
    &&& history.last() matches MessageView::Assistant { content }
    &&& calls(content) == seq![id]
    &&& paired(history.drop_last())
}

/// The state of a session that keeps its tool uses and results together:
/// the message under assembly holds no tool use; while a call is with the
/// user or the runner the conversation waits for exactly its result; and in
/// every other phase every tool use has its result.
pub open spec fn orderly(s: AgentView) -> bool {
    &&& calls(s.pending).len() == 0
    &&& match s.phase {
        PhaseView::AwaitingApproval { id, .. } => awaits_result(s.history, id),
        PhaseView::AwaitingReason { id } => awaits_result(s.history, id),
        PhaseView::Running { id } => awaits_result(s.history, id),
        _ => paired(s.history),
    }
}

/// A session that waits for the user, with nothing under assembly, is orderly
/// where every tool use of its conversation has its result. A session that
/// starts with an empty conversation is of this kind.
pub proof fn lemma_fresh_session_is_orderly(s: AgentView)
    requires
        s.phase is Idle,
        s.pending.len() == 0,
        paired(s.history),
    ensures
        orderly(s),
        paired(Seq::<MessageView>::empty()),
{
}

/// What can happen to a session.
pub enum Input {
    Begin(Seq<MessageView>),
    Event(Result<Option<StreamEventView>, DecodeError>),
    Content(AssistantContentView),
    Decision(DecisionView),
    Answer(Seq<char>),
    Reason(Seq<char>),
    Output(Seq<char>),
    LaunchFailure(Seq<char>),
    StreamEnd,
}

/// The step that an input makes.
pub open spec fn next(s: AgentView, input: Input) -> (AgentView, Result<ActionView, TurnError>) {
    match input {
        Input::Begin(messages) => s.begin(messages),
        Input::Event(decoded) => s.event(decoded),
        Input::Content(item) => s.content(item),
        Input::Decision(decision) => s.decision(decision),
        Input::Answer(text) => s.answer(text),
        Input::Reason(why) => s.reason(why),
        Input::Output(transcript) => s.output(transcript),
        Input::LaunchFailure(why) => s.launch_failed(why),
        Input::StreamEnd => s.stream_end(),
    }
}

/// Whether an input can be taken without breaking the conversation: messages
/// that the user hands in must not themselves hold a tool use without its
/// result.
pub open spec fn admissible(s: AgentView, input: Input) -> bool {
    match input {
        Input::Begin(messages) => (s.phase is Idle || s.phase is Done) ==> paired(
            s.history + messages,
        ),
        _ => true,
    }
}

/// The state after a sequence of inputs.
pub open spec fn state_after(s: AgentView, inputs: Seq<Input>) -> AgentView
    decreases inputs.len(),
{
    if inputs.len() == 0 {
        s
    } else {
        next(state_after(s, inputs.drop_last()), inputs.last()).0
    }
}

/// Whether each input of a sequence is admissible in the state that it meets.
pub open spec fn all_admissible(s: AgentView, inputs: Seq<Input>) -> bool {
    forall|k: int|
        0 <= k < inputs.len() ==> admissible(state_after(s, inputs.take(k)), #[trigger] inputs[k])
}

/// A message that holds no tool use can join a conversation in which every
/// tool use has its result.
pub proof fn lemma_paired_push(history: Seq<MessageView>, message: MessageView)
    requires
        paired(history),
        message matches MessageView::Assistant { content } ==> calls(content).len() == 0,
    ensures
        paired(history.push(message)),
{
    let longer = history.push(message);
    assert forall|k: int| 0 <= k < longer.len() implies #[trigger] answered_at(longer, k) by {
        if k < history.len() {
            assert(answered_at(history, k));
            assert(longer[k] == history[k]);
            if k + 1 < history.len() {
                assert(longer[k + 1] == history[k + 1]);
            }
        }
    }
}

/// The result of the one call that a conversation waits for completes it.
pub proof fn lemma_result_completes(history: Seq<MessageView>, id: Seq<char>, content: Seq<char>)
    requires
        awaits_result(history, id),
    ensures
        paired(history.push(result_message(id, content))),
{
    let reply = result_message(id, content);
    let longer = history.push(reply);
    let before = history.drop_last();
    assert(results(reply->User_content) == seq![id]) by {
        let items = reply->User_content;
        assert(items.len() == 1);
        assert(items.drop_last() =~= Seq::<UserContentView>::empty());
        assert(results(items.drop_last()) =~= Seq::<Seq<char>>::empty());
        assert(items.last() == UserContentView::ToolResult { tool_use_id: id, content });
        assert(results(items) =~= seq![id]);
    }
    assert forall|k: int| 0 <= k < longer.len() implies #[trigger] answered_at(longer, k) by {
        if k < history.len() - 1 {
            assert(answered_at(before, k));
            assert(before[k] == longer[k]);
            if k + 1 < before.len() {
                assert(before[k + 1] == longer[k + 1]);
            }
        } else if k == history.len() - 1 {
            assert(longer[k] == history.last());
            assert(longer[k + 1] == reply);
        }
    }
}

/// A tool use that closes the message under assembly leaves the conversation
/// waiting for exactly its result.
pub proof fn lemma_call_awaits_result(
    history: Seq<MessageView>,
    pending: Seq<AssistantContentView>,
    item: AssistantContentView,
)
    requires
        paired(history),
        calls(pending).len() == 0,
        item is ToolUse,
    ensures
        awaits_result(
            history.push(MessageView::Assistant { content: pending.push(item) }),
            item->ToolUse_id,
        ),
{
    let content = pending.push(item);
    let longer = history.push(MessageView::Assistant { content });
    assert(content.drop_last() =~= pending);
    assert(calls(content) =~= seq![item->ToolUse_id]);
    assert(longer.drop_last() =~= history);
}

/// One step keeps a session orderly.
pub proof fn lemma_step_keeps_order(s: AgentView, input: Input)
    requires
        orderly(s),
        admissible(s, input),
    ensures
        orderly(next(s, input).0),
{
    let empty = Seq::<AssistantContentView>::empty();
    assert(calls(empty).len() == 0);
    match input {
        Input::Begin(messages) => {},
        Input::Event(decoded) => {
            if s.phase is Streaming {
                match decoded {
                    Ok(Some(event)) => match crate::accumulator::step(s.slots, event) {
                        Ok(moved) => match moved.closed {
                            Some(slot) => {
                                lemma_content_keeps_order(
                                    AgentView { slots: moved.slots, ..s },
                                    crate::accumulator::content_of(slot),
                                );
                            },
                            None => {},
                        },
                        Err(_) => {},
                    },
                    _ => {},
                }
            }
        },
        Input::Content(item) => {
            lemma_content_keeps_order(s, item);
        },
        Input::Decision(decision) => {
            if let PhaseView::AwaitingApproval { id, command } = s.phase {
                if let DecisionView::Rejected { reason } = decision {
                    lemma_result_completes(s.history, id, rejection_text(reason));
                }
            }
        },
        Input::Answer(text) => {},
        Input::Reason(why) => {
            if let PhaseView::AwaitingReason { id } = s.phase {
                lemma_result_completes(s.history, id, rejection_text(why));
            }
        },
        Input::Output(transcript) => {
            if let PhaseView::Running { id } = s.phase {
                lemma_result_completes(s.history, id, transcript);
            }
        },
        Input::LaunchFailure(why) => {
            if let PhaseView::Running { id } = s.phase {
                lemma_result_completes(s.history, id, crate::agent::launch_failure_text(why));
            }
        },
        Input::StreamEnd => {
            if s.phase is Streaming && s.pending.len() > 0 {
                lemma_paired_push(s.history, MessageView::Assistant { content: s.pending });
            }
        },
    }
}

/// A finished block keeps a session orderly.
pub proof fn lemma_content_keeps_order(s: AgentView, item: AssistantContentView)
    requires
        orderly(s),
    ensures
        orderly(s.content(item).0),
{
    if s.phase is Streaming {
        assert(s.pending.push(item).drop_last() =~= s.pending);
        if item is ToolUse {
            lemma_call_awaits_result(s.history, s.pending, item);
            assert(calls(Seq::<AssistantContentView>::empty()).len() == 0);
        }
    }
}

/// A request goes out only from a session that is streaming.
pub proof fn lemma_request_means_streaming(s: AgentView, input: Input)
    requires
        next(s, input).1 == Ok::<ActionView, TurnError>(ActionView::SendRequest),
    ensures
        next(s, input).0.phase is Streaming,
{
    match input {
        Input::Event(decoded) => {
            if s.phase is Streaming {
                match decoded {
                    Ok(Some(event)) => match crate::accumulator::step(s.slots, event) {
                        Ok(moved) => {},
                        Err(_) => {},
                    },
                    _ => {},
                }
            }
        },
        _ => {},
    }
}

/// Whatever happens to an orderly session, it stays orderly; and whenever a
/// request goes out, every tool use of the conversation that it carries is
/// followed by exactly one result with its id.
pub proof fn lemma_every_request_finds_calls_answered(s: AgentView, inputs: Seq<Input>)
    requires
        orderly(s),
        all_admissible(s, inputs),
    ensures
        orderly(state_after(s, inputs)),
        inputs.len() > 0 && next(state_after(s, inputs.drop_last()), inputs.last()).1 == Ok::<
            ActionView,
            TurnError,
        >(ActionView::SendRequest) ==> paired(state_after(s, inputs).history),
    decreases inputs.len(),
{
    if inputs.len() > 0 {
        let earlier = inputs.drop_last();
        assert(all_admissible(s, earlier)) by {
            assert forall|k: int| 0 <= k < earlier.len() implies admissible(
                state_after(s, earlier.take(k)),
                #[trigger] earlier[k],
            ) by {
                assert(earlier.take(k) =~= inputs.take(k));
                assert(earlier[k] == inputs[k]);
            }
        }
        lemma_every_request_finds_calls_answered(s, earlier);
        assert(inputs.take(inputs.len() - 1) =~= earlier);
        assert(inputs.last() == inputs[inputs.len() - 1]);
        lemma_step_keeps_order(state_after(s, earlier), inputs.last());
        if next(state_after(s, earlier), inputs.last()).1 == Ok::<ActionView, TurnError>(
            ActionView::SendRequest,
        ) {
            lemma_request_means_streaming(state_after(s, earlier), inputs.last());
        }
    }
}

/// A refusal never reaches the runner: after an answer that is no yes the
/// user is asked for the reason, and the reason goes into the conversation
/// as the result of the call, word for word behind a fixed opening. Neither
/// step asks for the command to be run.
pub proof fn lemma_refusal_never_runs(s: AgentView, answer: Seq<char>, why: Seq<char>)
    requires
        s.phase is AwaitingApproval,
        !says_yes(answer),
    ensures
        s.answer(answer).1 == Ok::<ActionView, TurnError>(ActionView::AskReason),
        s.answer(answer).0.reason(why).1 == Ok::<ActionView, TurnError>(ActionView::Await),
        s.answer(answer).0.reason(why).0.phase is Streaming,
        s.answer(answer).0.reason(why).0.history == s.history.push(
            result_message(s.phase->AwaitingApproval_id, rejection_text(why)),
        ),
        rejection_text(why).subrange(
            rejection_text(why).len() - why.len(),
            rejection_text(why).len() as int,
        ) == why,
{
    let text = rejection_text(why);
    assert(text.subrange(text.len() - why.len(), text.len() as int) =~= why);
}

/// A command is run only on a yes of the user, or where every command is
/// allowed.
pub proof fn lemma_run_needs_leave(s: AgentView, input: Input)
    requires
        next(s, input).1 matches Ok(ActionView::Run { .. }),
    ensures
        s.phase is AwaitingApproval || s.phase is Streaming,
        s.phase is AwaitingApproval ==> (input is Answer && says_yes(input->Answer_0)) || input
            == Input::Decision(DecisionView::Approved),
        s.phase is Streaming ==> s.permissions is AllowAll,
{
    match input {
        Input::Event(decoded) => {
            if s.phase is Streaming {
                match decoded {
                    Ok(Some(event)) => match crate::accumulator::step(s.slots, event) {
                        Ok(moved) => {},
                        Err(_) => {},
                    },
                    _ => {},
                }
            }
        },
        _ => {},
    }
}

/// Whether the requests that the turn has sent are within the bound: no more
/// than the bound allows, the first request of a turn apart.
pub open spec fn within_bound(s: AgentView) -> bool {
    match s.round_limit {
        Some(most) => s.sent <= most || s.sent <= 1,
        None => true,
    }
}

/// No step changes the bound or takes the count of requests beyond it, and a
/// request that is not the first of its turn goes out only while the bound
/// leaves room for it.
pub proof fn lemma_step_keeps_bound(s: AgentView, input: Input)
    requires
        within_bound(s),
    ensures
        next(s, input).0.round_limit == s.round_limit,
        within_bound(next(s, input).0),
        next(s, input).1 == Ok::<ActionView, TurnError>(ActionView::SendRequest) && !(input
            is Begin) ==> may_send_more(s.round_limit, s.sent) && next(s, input).0.sent == one_more(
            s.sent,
        ),
{
    match input {
        Input::Event(decoded) => {
            if s.phase is Streaming {
                match decoded {
                    Ok(Some(event)) => match crate::accumulator::step(s.slots, event) {
                        Ok(moved) => {},
                        Err(_) => {},
                    },
                    _ => {},
                }
            }
        },
        _ => {},
    }
}

/// Whatever happens, the requests of a turn stay within the bound.
pub proof fn lemma_bound_holds_throughout(s: AgentView, inputs: Seq<Input>)
    requires
        within_bound(s),
    ensures
        state_after(s, inputs).round_limit == s.round_limit,
        within_bound(state_after(s, inputs)),
    decreases inputs.len(),
{
    if inputs.len() > 0 {
        lemma_bound_holds_throughout(s, inputs.drop_last());
        lemma_step_keeps_bound(state_after(s, inputs.drop_last()), inputs.last());
    }
}

} // verus!
