use boosty::agent::{Action, Agent, Phase, TurnError};
use boosty::confirm::Decision;
use boosty::accumulator::ProtocolError;
use boosty::decode::DecodeError;
use boosty::types::{
    AgentPermissions, AssistantContent, BashToolArgs, ContentBlockStop, Message, StreamEvent,
    UserContent,
};

fn user_text(text: &str) -> Message {
    Message::User { content: vec![UserContent::Text { text: text.to_string() }] }
}

fn new_agent() -> Agent {
    Agent::new("haiku".to_string(), vec![], "key".to_string())
}

fn start_text(index: u32, text: &str) -> String {
    format!(
        "{{\"type\":\"content_block_start\",\"index\":{},\"content_block\":{{\"type\":\"text\",\"text\":\"{}\"}}}}",
        index, text
    )
}

fn start_tool(index: u32, id: &str) -> String {
    format!(
        "{{\"type\":\"content_block_start\",\"index\":{},\"content_block\":{{\"type\":\"tool_use\",\"id\":\"{}\",\"name\":\"bash\",\"input\":{{}}}}}}",
        index, id
    )
}

fn delta_text(index: u32, text: &str) -> String {
    format!(
        "{{\"type\":\"content_block_delta\",\"index\":{},\"delta\":{{\"type\":\"text_delta\",\"text\":\"{}\"}}}}",
        index, text
    )
}

fn delta_json(index: u32, escaped: &str) -> String {
    format!(
        "{{\"type\":\"content_block_delta\",\"index\":{},\"delta\":{{\"type\":\"input_json_delta\",\"partial_json\":\"{}\"}}}}",
        index, escaped
    )
}

fn stop(index: u32) -> String {
    format!("{{\"type\":\"content_block_stop\",\"index\":{}}}", index)
}

/// Streams a tool call `{"command": <command>}` under `index` up to its stop.
fn stream_tool_call(agent: &mut Agent, index: u32, id: &str, command: &str) -> Result<Action, TurnError> {
    assert_eq!(agent.on_event("content_block_start", &start_tool(index, id)), Ok(Action::Await));
    assert_eq!(
        agent.on_event("content_block_delta", &delta_json(index, "{\\\"command\\\": ")),
        Ok(Action::Await)
    );
    assert_eq!(
        agent.on_event(
            "content_block_delta",
            &delta_json(index, &format!("\\\"{}\\\"}}", command))
        ),
        Ok(Action::Await)
    );
    agent.on_event("content_block_stop", &stop(index))
}

#[test]
fn new_agent_waits_for_the_user() {
    let agent = Agent::new("m".to_string(), vec![user_text("earlier")], "k".to_string());
    assert_eq!(agent.phase(), &Phase::Idle);
    assert_eq!(agent.model(), "m");
    assert_eq!(agent.messages(), &vec![user_text("earlier")]);
    assert_eq!(agent.permissions(), AgentPermissions::ConfirmAll);
    let agent = agent.with_permissions(AgentPermissions::AllowAll);
    assert_eq!(agent.permissions(), AgentPermissions::AllowAll);
    assert_eq!(agent.messages(), &vec![user_text("earlier")]);
}

#[test]
fn list_files_scenario_ends_with_four_messages() {
    let mut agent = new_agent();
    assert_eq!(agent.begin_turn(vec![user_text("list files")]), Ok(Action::SendRequest));
    assert_eq!(agent.phase(), &Phase::Streaming);

    // the model speaks, then asks for `ls`
    assert_eq!(agent.on_event("message_start", "{\"type\":\"message_start\"}"), Ok(Action::Await));
    assert_eq!(
        agent.on_event("content_block_start", &start_text(0, "")),
        Ok(Action::Show { text: String::new() })
    );
    assert_eq!(
        agent.on_event("content_block_delta", &delta_text(0, "Sure, ")),
        Ok(Action::Show { text: "Sure, ".to_string() })
    );
    assert_eq!(
        agent.on_event("content_block_delta", &delta_text(0, "listing files:")),
        Ok(Action::Show { text: "listing files:".to_string() })
    );
    assert_eq!(agent.on_event("content_block_stop", &stop(0)), Ok(Action::Await));
    assert_eq!(
        stream_tool_call(&mut agent, 1, "toolu_01", "ls"),
        Ok(Action::AskApproval { command: "ls".to_string() })
    );
    assert_eq!(
        agent.phase(),
        &Phase::AwaitingApproval { id: "toolu_01".to_string(), command: "ls".to_string() }
    );
    // the assistant message is in the conversation before anything runs
    assert_eq!(agent.messages().len(), 2);

    // the user approves, the command runs
    assert_eq!(agent.on_answer("y\n"), Ok(Action::Run { command: "ls".to_string() }));
    assert_eq!(agent.phase(), &Phase::Running { id: "toolu_01".to_string() });
    assert_eq!(agent.on_output("Cargo.toml\nsrc\n".to_string()), Ok(Action::Await));
    assert_eq!(agent.phase(), &Phase::Streaming);
    assert_eq!(agent.on_event("message_stop", "{}"), Ok(Action::Await));

    // the stream ends: the model gets the result without new input
    assert_eq!(agent.on_stream_end(), Ok(Action::SendRequest));
    assert_eq!(agent.phase(), &Phase::Streaming);
    assert_eq!(
        agent.on_event("content_block_start", &start_text(0, "Two entries.")),
        Ok(Action::Show { text: "Two entries.".to_string() })
    );
    assert_eq!(agent.on_event("content_block_stop", &stop(0)), Ok(Action::Await));
    assert_eq!(agent.on_stream_end(), Ok(Action::Finished));
    assert_eq!(agent.phase(), &Phase::Done);

    assert_eq!(
        agent.messages(),
        &vec![
            user_text("list files"),
            Message::Assistant {
                content: vec![
                    AssistantContent::Text { text: "Sure, listing files:".to_string() },
                    AssistantContent::ToolUse {
                        id: "toolu_01".to_string(),
                        name: "bash".to_string(),
                        input: BashToolArgs { command: "ls".to_string() },
                    },
                ],
            },
            Message::User {
                content: vec![UserContent::ToolResult {
                    tool_use_id: "toolu_01".to_string(),
                    content: "Cargo.toml\nsrc\n".to_string(),
                }],
            },
            Message::Assistant {
                content: vec![AssistantContent::Text { text: "Two entries.".to_string() }],
            },
        ]
    );
    assert_eq!(agent.messages().len(), 4);
}

#[test]
fn a_refusal_never_runs_and_keeps_the_reason() {
    let mut agent = new_agent();
    agent.begin_turn(vec![user_text("clean up")]).unwrap();
    assert_eq!(
        stream_tool_call(&mut agent, 0, "toolu_9", "rm -rf /"),
        Ok(Action::AskApproval { command: "rm -rf /".to_string() })
    );
    assert_eq!(agent.on_answer("n\n"), Ok(Action::AskReason));
    assert_eq!(agent.phase(), &Phase::AwaitingReason { id: "toolu_9".to_string() });
    // the runner cannot report in: nothing is running
    assert_eq!(agent.on_output("never ran".to_string()), Err(TurnError::OutOfTurn));
    assert_eq!(agent.on_reason("far too dangerous\n"), Ok(Action::Await));
    assert_eq!(agent.phase(), &Phase::Streaming);
    assert_eq!(
        agent.messages().last(),
        Some(&Message::User {
            content: vec![UserContent::ToolResult {
                tool_use_id: "toolu_9".to_string(),
                content: "User rejected tool call with reason: far too dangerous\n".to_string(),
            }],
        })
    );
    // the refusal goes to the model
    assert_eq!(agent.on_stream_end(), Ok(Action::SendRequest));
}

#[test]
fn a_blank_or_garbled_answer_is_a_refusal() {
    for answer in ["", "\n", "   ", "yes", "ok", "yy", "no"] {
        let mut agent = new_agent();
        agent.begin_turn(vec![user_text("go")]).unwrap();
        stream_tool_call(&mut agent, 0, "t", "ls").unwrap();
        assert_eq!(agent.on_answer(answer), Ok(Action::AskReason));
    }
}

#[test]
fn with_every_command_allowed_the_call_goes_straight_to_the_runner() {
    let mut agent = new_agent().with_permissions(AgentPermissions::AllowAll);
    agent.begin_turn(vec![user_text("go")]).unwrap();
    assert_eq!(
        stream_tool_call(&mut agent, 0, "t1", "date"),
        Ok(Action::Run { command: "date".to_string() })
    );
    assert_eq!(agent.phase(), &Phase::Running { id: "t1".to_string() });
    assert_eq!(agent.on_answer("y"), Err(TurnError::OutOfTurn));
    assert_eq!(agent.on_output("today\n".to_string()), Ok(Action::Await));
}

#[test]
fn every_tool_use_is_followed_by_one_result_with_its_id() {
    let mut agent = new_agent();
    agent.begin_turn(vec![user_text("two things")]).unwrap();
    // two calls in one response: one approved, one refused
    agent.on_event("content_block_start", &start_text(0, "first")).unwrap();
    agent.on_event("content_block_stop", &stop(0)).unwrap();
    stream_tool_call(&mut agent, 1, "call_a", "ls").unwrap();
    agent.on_answer("Y").unwrap();
    agent.on_output("a\n".to_string()).unwrap();
    agent.on_event("content_block_start", &start_text(2, "second")).unwrap();
    agent.on_event("content_block_stop", &stop(2)).unwrap();
    stream_tool_call(&mut agent, 3, "call_b", "pwd").unwrap();
    agent.on_answer("nope").unwrap();
    agent.on_reason("no").unwrap();
    assert_eq!(agent.on_stream_end(), Ok(Action::SendRequest));

    let history = agent.messages();
    assert_eq!(history.len(), 5);
    let mut uses = 0;
    for (k, message) in history.iter().enumerate() {
        if let Message::Assistant { content } = message {
            let ids: Vec<&String> = content
                .iter()
                .filter_map(|item| match item {
                    AssistantContent::ToolUse { id, .. } => Some(id),
                    _ => None,
                })
                .collect();
            if ids.is_empty() {
                continue;
            }
            uses += ids.len();
            let answers: Vec<&String> = match &history[k + 1] {
                Message::User { content } => content
                    .iter()
                    .filter_map(|item| match item {
                        UserContent::ToolResult { tool_use_id, .. } => Some(tool_use_id),
                        _ => None,
                    })
                    .collect(),
                Message::Assistant { .. } => panic!("a tool use without its result"),
            };
            assert_eq!(answers, ids);
        }
    }
    assert_eq!(uses, 2);
}

#[test]
fn an_invalid_tool_use_stays_visible_and_runs_nothing() {
    let mut agent = new_agent();
    agent.begin_turn(vec![user_text("go")]).unwrap();
    agent.on_event("content_block_start", &start_tool(0, "t")).unwrap();
    agent.on_event("content_block_delta", &delta_json(0, "{\\\"command\\\": \\\"l")).unwrap();
    assert_eq!(agent.on_event("content_block_stop", &stop(0)), Ok(Action::Await));
    assert_eq!(agent.phase(), &Phase::Streaming);
    assert_eq!(agent.on_stream_end(), Ok(Action::Finished));
    assert_eq!(
        agent.messages().last(),
        Some(&Message::Assistant {
            content: vec![AssistantContent::InvalidToolUse {
                id: "t".to_string(),
                name: "bash".to_string(),
                raw: "{\"command\": \"l".to_string(),
            }],
        })
    );
}

#[test]
fn a_payload_that_cannot_be_decoded_ends_the_turn() {
    let mut agent = new_agent();
    agent.begin_turn(vec![user_text("go")]).unwrap();
    agent.on_event("content_block_start", &start_text(0, "partial")).unwrap();
    assert_eq!(
        agent.on_event("content_block_delta", "{\"index\":0,"),
        Err(TurnError::Decode(DecodeError::Syntax))
    );
    assert_eq!(agent.phase(), &Phase::Idle);
    // the conversation is not rolled back
    assert_eq!(agent.messages(), &vec![user_text("go")]);
    // and the session takes new input
    assert_eq!(agent.begin_turn(vec![user_text("again")]), Ok(Action::SendRequest));

    assert_eq!(
        agent.on_event("content_block_delta", "{\"index\":0}"),
        Err(TurnError::Decode(DecodeError::Shape))
    );
    assert_eq!(agent.phase(), &Phase::Idle);
}

#[test]
fn an_event_that_does_not_fit_ends_the_turn() {
    let cases = [
        (vec![("content_block_stop", stop(0))], ProtocolError::NoOpenBlock),
        (vec![("content_block_delta", delta_text(5, "x"))], ProtocolError::NoOpenBlock),
        (
            vec![
                ("content_block_start", start_text(0, "a")),
                ("content_block_start", start_text(0, "b")),
            ],
            ProtocolError::IndexInUse,
        ),
        (
            vec![
                ("content_block_start", start_tool(0, "t")),
                ("content_block_delta", delta_text(0, "x")),
            ],
            ProtocolError::WrongKind,
        ),
    ];
    for (events, error) in cases {
        let mut agent = new_agent();
        agent.begin_turn(vec![user_text("go")]).unwrap();
        let mut last = Ok(Action::Await);
        for (name, data) in events {
            last = agent.on_event(name, &data);
        }
        assert_eq!(last, Err(TurnError::Protocol(error)));
        assert_eq!(agent.phase(), &Phase::Idle);
    }
}

#[test]
fn a_step_out_of_its_phase_changes_nothing() {
    let mut agent = new_agent();
    assert_eq!(agent.on_event("content_block_stop", &stop(0)), Err(TurnError::OutOfTurn));
    assert_eq!(agent.on_stream_end(), Err(TurnError::OutOfTurn));
    assert_eq!(agent.on_answer("y"), Err(TurnError::OutOfTurn));
    assert_eq!(agent.on_reason("x"), Err(TurnError::OutOfTurn));
    assert_eq!(agent.on_output("x".to_string()), Err(TurnError::OutOfTurn));
    assert_eq!(agent.on_launch_failure("x"), Err(TurnError::OutOfTurn));
    assert_eq!(
        agent.on_content(AssistantContent::Text { text: "x".to_string() }),
        Err(TurnError::OutOfTurn)
    );
    assert_eq!(
        agent.on_decoded(Ok(Some(StreamEvent::BlockStop(ContentBlockStop { index: 0 })))),
        Err(TurnError::OutOfTurn)
    );
    assert_eq!(agent.phase(), &Phase::Idle);
    assert!(agent.messages().is_empty());

    agent.begin_turn(vec![user_text("go")]).unwrap();
    assert_eq!(agent.begin_turn(vec![user_text("more")]), Err(TurnError::OutOfTurn));
    assert_eq!(agent.messages(), &vec![user_text("go")]);
    assert_eq!(agent.phase(), &Phase::Streaming);
}

#[test]
fn a_command_that_cannot_start_still_gets_a_result() {
    let mut agent = new_agent();
    agent.begin_turn(vec![user_text("go")]).unwrap();
    stream_tool_call(&mut agent, 0, "t7", "ls").unwrap();
    agent.on_answer("y").unwrap();
    assert_eq!(agent.on_launch_failure("No such file or directory"), Err(TurnError::Launch));
    assert_eq!(agent.phase(), &Phase::Idle);
    assert_eq!(
        agent.messages().last(),
        Some(&Message::User {
            content: vec![UserContent::ToolResult {
                tool_use_id: "t7".to_string(),
                content: "Failed to execute command: No such file or directory".to_string(),
            }],
        })
    );
}

#[test]
fn a_turn_with_nothing_to_send_ends_at_once() {
    let mut agent = new_agent();
    assert_eq!(agent.begin_turn(vec![]), Ok(Action::Finished));
    assert_eq!(agent.phase(), &Phase::Done);
    assert!(agent.messages().is_empty());
    // with a conversation behind it, an empty input still sends
    let mut agent = Agent::new("m".to_string(), vec![user_text("hi")], "k".to_string());
    assert_eq!(agent.begin_turn(vec![]), Ok(Action::SendRequest));
}

#[test]
fn a_stream_that_ends_without_content_adds_no_message() {
    let mut agent = new_agent();
    agent.begin_turn(vec![user_text("go")]).unwrap();
    assert_eq!(agent.on_stream_end(), Ok(Action::Finished));
    assert_eq!(agent.messages(), &vec![user_text("go")]);
    // a block that was never stopped is dropped with the stream
    agent.begin_turn(vec![user_text("again")]).unwrap();
    agent.on_event("content_block_start", &start_text(0, "cut off")).unwrap();
    assert_eq!(agent.on_stream_end(), Ok(Action::Finished));
    assert_eq!(agent.messages(), &vec![user_text("go"), user_text("again")]);
}

#[test]
fn on_content_closes_the_message_at_a_tool_use() {
    let mut agent = new_agent();
    agent.begin_turn(vec![user_text("go")]).unwrap();
    assert_eq!(
        agent.on_content(AssistantContent::Text { text: "a".to_string() }),
        Ok(Action::Await)
    );
    assert_eq!(
        agent.on_content(AssistantContent::InvalidToolUse {
            id: "x".to_string(),
            name: "bash".to_string(),
            raw: "{".to_string(),
        }),
        Ok(Action::Await)
    );
    assert_eq!(agent.messages().len(), 1);
    assert_eq!(
        agent.on_content(AssistantContent::ToolUse {
            id: "y".to_string(),
            name: "bash".to_string(),
            input: BashToolArgs { command: "true".to_string() },
        }),
        Ok(Action::AskApproval { command: "true".to_string() })
    );
    assert_eq!(agent.messages().len(), 2);
    match &agent.messages()[1] {
        Message::Assistant { content } => assert_eq!(content.len(), 3),
        Message::User { .. } => panic!("the closed message is the assistant's"),
    }
}

#[test]
fn a_decision_can_be_handed_in_as_one() {
    let mut agent = new_agent();
    agent.begin_turn(vec![user_text("go")]).unwrap();
    stream_tool_call(&mut agent, 0, "t1", "ls").unwrap();
    assert_eq!(agent.on_decision(Decision::Approved), Ok(Action::Run { command: "ls".to_string() }));
    assert_eq!(agent.on_decision(Decision::Approved), Err(TurnError::OutOfTurn));
    agent.on_output(String::new()).unwrap();
    stream_tool_call(&mut agent, 1, "t2", "pwd").unwrap();
    assert_eq!(
        agent.on_decision(Decision::Rejected { reason: "not now".to_string() }),
        Ok(Action::Await)
    );
    assert_eq!(
        agent.messages().last(),
        Some(&Message::User {
            content: vec![UserContent::ToolResult {
                tool_use_id: "t2".to_string(),
                content: "User rejected tool call with reason: not now".to_string(),
            }],
        })
    );
}

#[test]
fn a_bound_on_rounds_ends_a_chain_of_tool_calls() {
    let mut agent = new_agent()
        .with_permissions(AgentPermissions::AllowAll)
        .with_round_limit(Some(2));
    assert_eq!(agent.round_limit(), Some(2));
    assert_eq!(agent.begin_turn(vec![user_text("loop")]), Ok(Action::SendRequest));
    stream_tool_call(&mut agent, 0, "t1", "true").unwrap();
    agent.on_output(String::new()).unwrap();
    // the second request of the turn may still go out
    assert_eq!(agent.on_stream_end(), Ok(Action::SendRequest));
    stream_tool_call(&mut agent, 0, "t2", "true").unwrap();
    agent.on_output(String::new()).unwrap();
    // a third may not
    assert_eq!(agent.on_stream_end(), Ok(Action::Finished));
    assert_eq!(agent.phase(), &Phase::Done);
    // the second call has its result all the same
    assert_eq!(agent.messages().len(), 5);
    // and the next turn starts counting afresh
    assert_eq!(agent.begin_turn(vec![user_text("again")]), Ok(Action::SendRequest));
    stream_tool_call(&mut agent, 0, "t3", "true").unwrap();
    agent.on_output(String::new()).unwrap();
    assert_eq!(agent.on_stream_end(), Ok(Action::SendRequest));
}

#[test]
fn without_a_bound_every_answered_call_brings_another_request() {
    let mut agent = new_agent().with_permissions(AgentPermissions::AllowAll);
    assert_eq!(agent.round_limit(), None);
    agent.begin_turn(vec![user_text("loop")]).unwrap();
    for round in 0..20 {
        stream_tool_call(&mut agent, round, "t", "true").unwrap();
        agent.on_output(String::new()).unwrap();
        assert_eq!(agent.on_stream_end(), Ok(Action::SendRequest));
    }
    assert_eq!(agent.on_stream_end(), Ok(Action::Finished));
}

#[test]
fn the_first_request_goes_out_under_any_bound() {
    let mut agent = new_agent().with_round_limit(Some(0));
    assert_eq!(agent.begin_turn(vec![user_text("go")]), Ok(Action::SendRequest));
    stream_tool_call(&mut agent, 0, "t1", "true").unwrap();
    agent.on_answer("y").unwrap();
    agent.on_output(String::new()).unwrap();
    assert_eq!(agent.on_stream_end(), Ok(Action::Finished));
}

#[test]
fn errors_say_what_went_wrong() {
    assert_eq!(TurnError::OutOfTurn.message(), "the session is not at this step of its turn");
    assert_eq!(
        TurnError::Decode(DecodeError::Syntax).message(),
        "could not decode an event of the stream: the payload is not JSON"
    );
    assert_eq!(
        TurnError::Decode(DecodeError::Shape).message(),
        "could not decode an event of the stream: the payload does not have the shape of its event"
    );
    assert_eq!(
        TurnError::Protocol(ProtocolError::IndexInUse).message(),
        "an event of the stream does not fit: a block was started under an index that is open"
    );
    assert_eq!(
        TurnError::Protocol(ProtocolError::NoOpenBlock).message(),
        "an event of the stream does not fit: no block is open under the index"
    );
    assert_eq!(
        TurnError::Protocol(ProtocolError::WrongKind).message(),
        "an event of the stream does not fit: the fragment is not of the kind of its block"
    );
    assert_eq!(TurnError::Launch.message(), "Failed to execute command");
}
