use crabcode::agent::{connect_failure, CodingAgent, TurnStream, STREAM_CUT};
use crabcode::decoder::LineDecoder;
use crabcode::session::{AppState, KeyInput, KeyOutcome};
use crabcode::types::{Action, AgentCommand, Message, OllamaResponse, Role};

fn frame(text: Option<&str>, done: bool) -> OllamaResponse {
    OllamaResponse {
        message: text.map(|t| Message { role: Role::Assistant, content: t.to_string() }),
        done,
    }
}

fn texts(actions: &[Action]) -> Vec<String> {
    actions
        .iter()
        .map(|a| match a {
            Action::Stream(t) => format!("delta:{}", t),
            Action::Response(t) => format!("failure:{}", t),
            Action::Done => "done".to_string(),
        })
        .collect()
}

fn feed_all(chunks: &[&[u8]]) -> Vec<Vec<u8>> {
    let mut d = LineDecoder::new();
    let mut out = Vec::new();
    for c in chunks {
        out.extend(d.push(c));
    }
    out
}

#[test]
fn lines_do_not_depend_on_chunk_boundaries() {
    let whole: &[u8] = b"{\"a\":1}\n{\"b\":2}\n\n{\"c\":3}\ntail";
    let expected: Vec<Vec<u8>> = vec![
        b"{\"a\":1}".to_vec(),
        b"{\"b\":2}".to_vec(),
        b"".to_vec(),
        b"{\"c\":3}".to_vec(),
    ];
    assert_eq!(feed_all(&[whole]), expected);
    for cut in 0..=whole.len() {
        let (a, b) = whole.split_at(cut);
        assert_eq!(feed_all(&[a, b]), expected, "cut at {}", cut);
    }
    let singles: Vec<&[u8]> = whole.chunks(1).collect();
    assert_eq!(feed_all(&singles), expected);
    assert_eq!(expected.len(), whole.iter().filter(|b| **b == b'\n').count());
}

#[test]
fn unfinished_tail_is_never_a_line() {
    let mut d = LineDecoder::new();
    assert!(d.push(b"{\"done\":tr").is_empty());
    assert!(d.push(b"").is_empty());
    assert_eq!(d.push(b"ue}\nnext"), vec![b"{\"done\":true}".to_vec()]);
}

#[test]
fn malformed_line_then_valid_frames_gives_each_frame_in_order() {
    let mut turn = TurnStream::new();
    assert!(turn.on_frame(None).is_empty());
    let mut all = Vec::new();
    for t in ["a", "b", "c"] {
        all.extend(turn.on_frame(Some(frame(Some(t), false))));
    }
    assert_eq!(texts(&all), vec!["delta:a", "delta:b", "delta:c"]);
    assert!(!turn.finished());
}

#[test]
fn deltas_then_done_give_exact_events_and_text() {
    let mut turn = TurnStream::new();
    let mut events = Vec::new();
    events.extend(turn.on_frame(Some(frame(Some("He"), false))));
    events.extend(turn.on_frame(Some(frame(Some("llo"), false))));
    events.extend(turn.on_frame(Some(frame(None, true))));
    assert_eq!(texts(&events), vec!["delta:He", "delta:llo", "done"]);
    assert!(turn.finished());

    let mut state = AppState::new();
    state.chat_history.push(Message { role: Role::User, content: "hey".to_string() });
    for e in events {
        state.on_action(e);
    }
    let last = state.chat_history.last().unwrap();
    assert_eq!(last.role, Role::Assistant);
    assert_eq!(last.content, "Hello");
    assert!(!state.reply_open);
}

#[test]
fn nothing_is_read_after_the_last_frame() {
    let mut turn = TurnStream::new();
    let first = turn.on_frame(Some(frame(Some("x"), true)));
    assert_eq!(texts(&first), vec!["delta:x", "done"]);
    assert!(turn.on_frame(Some(frame(Some("late"), false))).is_empty());
    assert!(turn.feed(b"{}\n").is_empty());
    assert!(turn.on_end().is_empty());
    assert!(turn.on_read_error("reset").is_empty());
}

#[test]
fn connect_failure_is_one_failure_and_the_next_command_runs() {
    let failure = connect_failure("connection refused");
    assert_eq!(texts(&[failure]), vec!["failure:Network Error: connection refused"]);

    let agent = CodingAgent::new("m".to_string());
    let cmd = AgentCommand::Run(vec![Message { role: Role::User, content: "again".to_string() }]);
    let body = agent.request_body(&cmd);
    assert!(body.contains("\"again\""));
    let mut turn = TurnStream::new();
    let lines = turn.feed(b"line one\nline two\n");
    assert_eq!(lines.len(), 2);
    let mut events = turn.on_frame(Some(frame(Some("ok"), false)));
    events.extend(turn.on_frame(Some(frame(None, true))));
    assert_eq!(texts(&events), vec!["delta:ok", "done"]);
}

#[test]
fn read_error_fails_the_turn_once() {
    let mut turn = TurnStream::new();
    let mut events = turn.on_frame(Some(frame(Some("part"), false)));
    events.extend(turn.on_read_error("connection reset"));
    events.extend(turn.on_end());
    assert_eq!(texts(&events), vec!["delta:part", "failure:Stream Error: connection reset"]);
}

#[test]
fn reply_cut_short_still_ends_with_a_failure() {
    let mut turn = TurnStream::new();
    let mut events = turn.on_frame(Some(frame(Some("par"), false)));
    events.extend(turn.on_end());
    assert_eq!(texts(&events), vec!["delta:par".to_string(), format!("failure:{}", STREAM_CUT)]);
    assert!(turn.finished());
}

#[test]
fn same_command_gives_same_body() {
    let agent = CodingAgent::new("qwen2.5-coder:7b".to_string());
    let history = vec![
        Message { role: Role::User, content: "hi".to_string() },
        Message { role: Role::Assistant, content: "Hi".to_string() },
    ];
    let a = agent.request_body(&AgentCommand::Run(history.clone()));
    let b = agent.request_body(&AgentCommand::Run(history));
    assert_eq!(a.as_bytes(), b.as_bytes());
}

#[test]
fn end_to_end_single_turn() {
    let mut state = AppState::new();
    assert!(matches!(state.on_key(KeyInput::Char('h')), KeyOutcome::Continue));
    assert!(matches!(state.on_key(KeyInput::Char('i')), KeyOutcome::Continue));
    let cmd = match state.on_key(KeyInput::Enter) {
        KeyOutcome::Send(cmd) => cmd,
        _ => panic!("Enter on a typed line sends it"),
    };
    assert_eq!(state.chat_history.len(), 1);
    assert_eq!(state.chat_history[0].role, Role::User);
    assert_eq!(state.chat_history[0].content, "hi");
    assert_eq!(state.input_buffer, "");
    let AgentCommand::Run(sent) = &cmd;
    assert_eq!(sent.len(), 1);
    assert_eq!(sent[0].content, "hi");

    let mut turn = TurnStream::new();
    let lines = turn.feed(b"{\"message\":{\"content\":\"Hi\"},\"done\":false}\n{\"message\":null,\"done\":true}\n");
    assert_eq!(
        lines,
        vec![
            b"{\"message\":{\"content\":\"Hi\"},\"done\":false}".to_vec(),
            b"{\"message\":null,\"done\":true}".to_vec()
        ]
    );
    let mut completed = 0;
    for parsed in [frame(Some("Hi"), false), frame(None, true)] {
        for action in turn.on_frame(Some(parsed)) {
            if matches!(action, Action::Done) {
                completed += 1;
            }
            state.on_action(action);
        }
    }
    assert_eq!(completed, 1);
    assert_eq!(state.chat_history.len(), 2);
    assert_eq!(state.chat_history[0].role, Role::User);
    assert_eq!(state.chat_history[0].content, "hi");
    assert_eq!(state.chat_history[1].role, Role::Assistant);
    assert_eq!(state.chat_history[1].content, "Hi");
}
