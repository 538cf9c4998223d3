use boosty::agent::Agent;
use boosty::json::Json;
use boosty::types::{AssistantContent, BashToolArgs, Message, UserContent};
use boosty::wire::{
    assistant_item_to_json, bash_args_to_json, endpoint, message_to_json, request_to_json,
    user_item_to_json,
    MAX_TOKENS,
};

fn text(s: &str) -> Json {
    Json::Text(s.to_string())
}

fn object(members: Vec<(&str, Json)>) -> Json {
    Json::Object(members.into_iter().map(|(k, v)| (k.to_string(), v)).collect())
}

/// The same document with the members of every object sorted by name.
fn sorted(doc: Json) -> Json {
    match doc {
        Json::Array(items) => Json::Array(items.into_iter().map(sorted).collect()),
        Json::Object(members) => {
            let mut members: Vec<(String, Json)> =
                members.into_iter().map(|(k, v)| (k, sorted(v))).collect();
            members.sort_by(|a, b| a.0.cmp(&b.0));
            Json::Object(members)
        }
        other => other,
    }
}

#[test]
fn user_items_on_the_wire() {
    assert_eq!(
        user_item_to_json(&UserContent::Text { text: "hello".to_string() }),
        object(vec![("type", text("text")), ("text", text("hello"))])
    );
    assert_eq!(
        user_item_to_json(&UserContent::ToolResult {
            tool_use_id: "toolu_1".to_string(),
            content: "out\n".to_string(),
        }),
        object(vec![
            ("type", text("tool_result")),
            ("tool_use_id", text("toolu_1")),
            ("content", text("out\n")),
        ])
    );
}

#[test]
fn assistant_items_on_the_wire() {
    assert_eq!(
        assistant_item_to_json(&AssistantContent::Text { text: "hi".to_string() }),
        object(vec![("type", text("text")), ("text", text("hi"))])
    );
    assert_eq!(
        assistant_item_to_json(&AssistantContent::ToolUse {
            id: "toolu_1".to_string(),
            name: "bash".to_string(),
            input: BashToolArgs { command: "ls".to_string() },
        }),
        object(vec![
            ("type", text("tool_use")),
            ("id", text("toolu_1")),
            ("name", text("bash")),
            ("input", object(vec![("command", text("ls"))])),
        ])
    );
    assert_eq!(
        assistant_item_to_json(&AssistantContent::InvalidToolUse {
            id: "toolu_2".to_string(),
            name: "bash".to_string(),
            raw: "{\"comm".to_string(),
        }),
        object(vec![
            ("type", text("invalid_tool_use")),
            ("id", text("toolu_2")),
            ("name", text("bash")),
            ("raw", text("{\"comm")),
        ])
    );
    assert_eq!(
        bash_args_to_json(&BashToolArgs { command: "pwd".to_string() }),
        object(vec![("command", text("pwd"))])
    );
}

#[test]
fn messages_on_the_wire_carry_their_role() {
    assert_eq!(
        message_to_json(&Message::User {
            content: vec![UserContent::Text { text: "a".to_string() }],
        }),
        object(vec![
            ("role", text("user")),
            (
                "content",
                Json::Array(vec![object(vec![("type", text("text")), ("text", text("a"))])])
            ),
        ])
    );
    assert_eq!(
        message_to_json(&Message::Assistant { content: vec![] }),
        object(vec![("role", text("assistant")), ("content", Json::Array(vec![]))])
    );
}

#[test]
fn the_request_is_what_the_service_expects() {
    let history = vec![
        Message::User { content: vec![UserContent::Text { text: "list files".to_string() }] },
        Message::Assistant {
            content: vec![
                AssistantContent::Text { text: "Sure".to_string() },
                AssistantContent::ToolUse {
                    id: "toolu_1".to_string(),
                    name: "bash".to_string(),
                    input: BashToolArgs { command: "ls".to_string() },
                },
            ],
        },
        Message::User {
            content: vec![UserContent::ToolResult {
                tool_use_id: "toolu_1".to_string(),
                content: "src\n".to_string(),
            }],
        },
    ];
    let expected = Json::parse(
        r#"{
            "model": "haiku",
            "max_tokens": 1024,
            "tools": [{"type": "bash_20250124", "name": "bash"}],
            "stream": true,
            "system": "You are Boosty, a helpful command line assistant. You help people accomplish programming tasks and learn new things.",
            "messages": [
                {"role": "user", "content": [{"type": "text", "text": "list files"}]},
                {"role": "assistant", "content": [
                    {"type": "text", "text": "Sure"},
                    {"type": "tool_use", "id": "toolu_1", "name": "bash", "input": {"command": "ls"}}
                ]},
                {"role": "user", "content": [
                    {"type": "tool_result", "tool_use_id": "toolu_1", "content": "src\n"}
                ]}
            ]
        }"#,
    )
    .unwrap();
    assert_eq!(sorted(request_to_json("haiku", &history)), sorted(expected));
    assert_eq!(MAX_TOKENS, 1024);
}

#[test]
fn the_request_names_its_members_in_a_fixed_order() {
    let doc = request_to_json("m", &vec![]);
    match doc {
        Json::Object(members) => {
            let names: Vec<&str> = members.iter().map(|(k, _)| k.as_str()).collect();
            assert_eq!(names, vec!["model", "max_tokens", "tools", "stream", "system", "messages"]);
            assert_eq!(members[5].1, Json::Array(vec![]));
        }
        _ => panic!("the request is an object"),
    }
}

#[test]
fn the_agent_sends_its_whole_conversation() {
    let history = vec![
        Message::User { content: vec![UserContent::Text { text: "one".to_string() }] },
        Message::Assistant { content: vec![AssistantContent::Text { text: "two".to_string() }] },
    ];
    let mut agent = Agent::new("model-x".to_string(), history.clone(), "k".to_string());
    agent
        .begin_turn(vec![Message::User {
            content: vec![UserContent::Text { text: "three".to_string() }],
        }])
        .unwrap();
    let mut all = history;
    all.push(Message::User { content: vec![UserContent::Text { text: "three".to_string() }] });
    assert_eq!(agent.request_body(), request_to_json("model-x", &all));
    assert_eq!(agent.request_body().field("model"), Some(&text("model-x")));
}

#[test]
fn the_headers_carry_the_credential() {
    let agent = Agent::new("m".to_string(), vec![], "SECRET-REDACTED".to_string());
    assert_eq!(
        agent.headers(),
        vec![
            ("content-type".to_string(), "application/json".to_string()),
            ("x-api-key".to_string(), "SECRET-REDACTED".to_string()),
            ("anthropic-version".to_string(), "2023-06-01".to_string()),
        ]
    );
}

#[test]
fn requests_go_to_the_messages_endpoint() {
    assert_eq!(endpoint(), "https://api.anthropic.com/v1/messages");
}
