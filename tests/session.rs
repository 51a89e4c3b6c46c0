use crabcode::session::{AppState, KeyInput, KeyOutcome, SEND_FAILED};
use crabcode::types::{Action, Message, Role};

#[test]
fn typing_and_backspace() {
    let mut s = AppState::new();
    assert!(matches!(s.on_key(KeyInput::Backspace), KeyOutcome::Continue));
    assert_eq!(s.input_buffer, "");
    s.on_key(KeyInput::Char('a'));
    s.on_key(KeyInput::Char('é'));
    assert_eq!(s.input_buffer, "aé");
    s.on_key(KeyInput::Backspace);
    assert_eq!(s.input_buffer, "a");
    s.on_key(KeyInput::Other);
    assert_eq!(s.input_buffer, "a");
}

#[test]
fn scrolling_is_clamped_at_both_ends() {
    let mut s = AppState::new();
    s.on_key(KeyInput::Up);
    assert_eq!(s.scroll_offset, 0);
    s.on_key(KeyInput::Down);
    s.on_key(KeyInput::Down);
    assert_eq!(s.scroll_offset, 2);
    s.on_key(KeyInput::Up);
    assert_eq!(s.scroll_offset, 1);
    s.scroll_offset = u16::MAX;
    s.on_key(KeyInput::Down);
    assert_eq!(s.scroll_offset, u16::MAX);
}

#[test]
fn escape_quits_and_empty_enter_does_nothing() {
    let mut s = AppState::default();
    assert!(matches!(s.on_key(KeyInput::Enter), KeyOutcome::Continue));
    assert!(s.chat_history.is_empty());
    assert!(matches!(s.on_key(KeyInput::Esc), KeyOutcome::Quit));
}

#[test]
fn failure_without_open_reply_is_its_own_turn() {
    let mut s = AppState::new();
    s.chat_history.push(Message { role: Role::User, content: "q".to_string() });
    s.on_action(Action::Response("Network Error: refused".to_string()));
    assert_eq!(s.chat_history.len(), 2);
    assert_eq!(s.chat_history[1].role, Role::Assistant);
    assert_eq!(s.chat_history[1].content, "Network Error: refused");
    assert!(!s.reply_open);
}

#[test]
fn failure_during_a_reply_is_marked_on_it() {
    let mut s = AppState::new();
    s.chat_history.push(Message { role: Role::User, content: "q".to_string() });
    s.on_action(Action::Stream("par".to_string()));
    assert!(s.reply_open);
    s.on_action(Action::Response("Stream Error: reset".to_string()));
    assert_eq!(s.chat_history.len(), 2);
    assert_eq!(s.chat_history[1].content, "par\nStream Error: reset");
    assert!(!s.reply_open);
}

#[test]
fn delta_after_a_user_turn_starts_a_new_reply() {
    let mut s = AppState::new();
    s.on_action(Action::Stream("a".to_string()));
    s.on_action(Action::Done);
    s.chat_history.push(Message { role: Role::User, content: "more".to_string() });
    s.on_action(Action::Stream("b".to_string()));
    s.on_action(Action::Stream("c".to_string()));
    assert_eq!(s.chat_history.len(), 3);
    assert_eq!(s.chat_history[0].content, "a");
    assert_eq!(s.chat_history[2].content, "bc");
}

#[test]
fn failed_send_is_shown() {
    let mut s = AppState::new();
    s.on_key(KeyInput::Char('x'));
    assert!(matches!(s.on_key(KeyInput::Enter), KeyOutcome::Send(_)));
    s.on_send_failed();
    assert_eq!(s.chat_history.len(), 2);
    assert_eq!(s.chat_history[1].role, Role::Assistant);
    assert_eq!(s.chat_history[1].content, SEND_FAILED);
}
