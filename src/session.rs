use vstd::prelude::*;
use vstd::string::*;
use crate::types::{Action, AgentCommand, Event, Message, Role, Turn, snapshot_history, turns};

verus! {

/// The turn shown when a message could not be handed to the worker.
pub const SEND_FAILED: &'static str = "Error: the message could not be sent, the agent is not running";

/// What separates a reply's text from the failure that cut it short.
pub const FAILURE_MARK: &'static str = "\n";

/// Relies on String::push: appends the character to the end of the text.
#[verifier::external_body]
fn push_char(s: &mut String, c: char)
    ensures
        final(s)@ == old(s)@.push(c),
{
    s.push(c)
}

/// Relies on String::pop: removes and returns the last character, or returns
/// `None` and leaves the text as it is when it is empty.
#[verifier::external_body]
fn pop_char(s: &mut String) -> (r: Option<char>)
    ensures
        old(s)@.len() == 0 ==> r is None && final(s)@ == old(s)@,
        old(s)@.len() > 0 ==> r == Some(old(s)@.last()) && final(s)@ == old(s)@.drop_last(),
{
    s.pop()
}

/// A key press, as the interactive loop sees it.
#[derive(Clone, Copy, Debug, PartialEq, Eq, Structural)]
pub enum KeyInput {
    Char(char),
    Backspace,
    Up,
    Down,
    Esc,
    Enter,
    Other,
}

/// What the interactive loop does after a key press.
#[derive(Debug)]
pub enum KeyOutcome {
    Continue,
    Quit,
    /// Hand this command to the worker.
    Send(AgentCommand),
}

/// The presentation state: the conversation, the line being typed, how far the
/// conversation is scrolled, and whether a reply is being streamed.
#[derive(Debug)]
pub struct AppState {
    pub input_buffer: String,
    pub chat_history: Vec<Message>,
    pub scroll_offset: u16,
    pub reply_open: bool,
}

/// The conversation and whether a reply is open, after one event from the
/// worker. A fragment extends the last turn if it is the assistant's, and
/// starts an assistant turn otherwise. The end of a turn closes the reply. A
/// failure is marked at the end of the open reply, or shown as a turn of its
/// own where no reply is open.
pub open spec fn after_event(h: Seq<Turn>, open: bool, e: Event) -> (Seq<Turn>, bool) {
    match e {
        Event::Delta(t) => if h.len() > 0 && h.last().0 == Role::Assistant {
            (h.update(h.len() - 1, (Role::Assistant, h.last().1 + t)), true)
        } else {
            (h.push((Role::Assistant, t)), true)
        },
        Event::Completed => (h, false),
        Event::Failure(m) => if open && h.len() > 0 && h.last().0 == Role::Assistant {
            (h.update(h.len() - 1, (Role::Assistant, h.last().1 + FAILURE_MARK@ + m)), false)
        } else {
            (h.push((Role::Assistant, m)), false)
        },
    }
}

impl AppState {
    /// The conversation as turns.
    pub open spec fn history(&self) -> Seq<Turn> {
        turns(self.chat_history@)
    }

    pub fn new() -> (r: AppState)
        ensures
            r.input_buffer@ == Seq::<char>::empty(),
            r.chat_history@.len() == 0,
            r.scroll_offset == 0,
            !r.reply_open,
    {
        AppState { input_buffer: String::new(), chat_history: Vec::new(), scroll_offset: 0, reply_open: false }
    }

    /// Applies one key press. Characters are typed into the line, Backspace
    /// removes the last one, Up and Down scroll by one (never below zero), Esc
    /// quits, and Enter on a non-empty line moves it into the conversation as a
    /// user turn and asks for the whole conversation to be sent.
    pub fn on_key(&mut self, key: KeyInput) -> (r: KeyOutcome)
        ensures
            final(self).reply_open == old(self).reply_open,
            match key {
                KeyInput::Char(c) => final(self).input_buffer@ == old(self).input_buffer@.push(c)
                    && final(self).history() == old(self).history()
                    && final(self).scroll_offset == old(self).scroll_offset
                    && r is Continue,
                KeyInput::Backspace => final(self).input_buffer@ == (if old(self).input_buffer@.len() > 0 {
                    old(self).input_buffer@.drop_last()
                } else {
                    old(self).input_buffer@
                }) && final(self).history() == old(self).history()
                    && final(self).scroll_offset == old(self).scroll_offset
                    && r is Continue,
                KeyInput::Up => final(self).scroll_offset == (if old(self).scroll_offset > 0 {
                    old(self).scroll_offset - 1
                } else {
                    0
                }) && final(self).input_buffer@ == old(self).input_buffer@
                    && final(self).history() == old(self).history()
                    && r is Continue,
                KeyInput::Down => final(self).scroll_offset == (if old(self).scroll_offset < u16::MAX {
                    old(self).scroll_offset + 1
                } else {
                    u16::MAX as int
                }) && final(self).input_buffer@ == old(self).input_buffer@
                    && final(self).history() == old(self).history()
                    && r is Continue,
                KeyInput::Enter => if old(self).input_buffer@.len() > 0 {
                    final(self).history() == old(self).history().push((Role::User, old(self).input_buffer@))
                        && final(self).input_buffer@ == Seq::<char>::empty()
                        && final(self).scroll_offset == old(self).scroll_offset
                        && (r matches KeyOutcome::Send(cmd) && turns(cmd.history()) == final(self).history())
                } else {
                    final(self).input_buffer@ == old(self).input_buffer@
                        && final(self).history() == old(self).history()
                        && final(self).scroll_offset == old(self).scroll_offset
                        && r is Continue
                },
                KeyInput::Esc => final(self).input_buffer@ == old(self).input_buffer@
                    && final(self).history() == old(self).history()
                    && final(self).scroll_offset == old(self).scroll_offset
                    && r is Quit,
                KeyInput::Other => final(self).input_buffer@ == old(self).input_buffer@
                    && final(self).history() == old(self).history()
                    && final(self).scroll_offset == old(self).scroll_offset
                    && r is Continue,
            },
    {
        match key {
            KeyInput::Char(c) => {
                push_char(&mut self.input_buffer, c);
                KeyOutcome::Continue
            },
            KeyInput::Backspace => {
                let _ = pop_char(&mut self.input_buffer);
                KeyOutcome::Continue
            },
            KeyInput::Up => {
                if self.scroll_offset > 0 {
                    self.scroll_offset = self.scroll_offset - 1;
                }
                KeyOutcome::Continue
            },
            KeyInput::Down => {
                if self.scroll_offset < u16::MAX {
                    self.scroll_offset = self.scroll_offset + 1;
                }
                KeyOutcome::Continue
            },
            KeyInput::Esc => KeyOutcome::Quit,
            KeyInput::Enter => {
                if self.input_buffer.unicode_len() == 0 {
                    KeyOutcome::Continue
                } else {
                    let mut line = String::new();
                    core::mem::swap(&mut line, &mut self.input_buffer);
                    let ghost before = self.chat_history@;
                    let m = Message::new(Role::User, line);
                    self.chat_history.push(m);
                    assert(turns(self.chat_history@) =~= turns(before).push(m@));
                    KeyOutcome::Send(AgentCommand::Run(snapshot_history(&self.chat_history)))
                }
            },
            KeyInput::Other => KeyOutcome::Continue,
        }
    }

    /// Applies one event from the worker to the conversation.
    pub fn on_action(&mut self, action: Action)
        ensures
            (final(self).history(), final(self).reply_open) == after_event(
                old(self).history(),
                old(self).reply_open,
                action@,
            ),
            final(self).input_buffer@ == old(self).input_buffer@,
            final(self).scroll_offset == old(self).scroll_offset,
    {
        let ghost h = self.history();
        let ghost e = action@;
        let n = self.chat_history.len();
        let last_is_assistant = n > 0 && self.chat_history[n - 1].role == Role::Assistant;
        assert(h.len() == n);
        assert(n > 0 ==> h.last() == self.chat_history@[n - 1]@);
        match action {
            Action::Stream(t) => {
                if last_is_assistant {
                    self.extend_last(t.as_str());
                } else {
                    self.push_assistant(t);
                }
                self.reply_open = true;
            },
            Action::Done => {
                self.reply_open = false;
            },
            Action::Response(m) => {
                if self.reply_open && last_is_assistant {
                    let marked = String::from_str(FAILURE_MARK).concat(m.as_str());
                    assert(h.last().1 + FAILURE_MARK@ + m@ =~= h.last().1 + marked@);
                    self.extend_last(marked.as_str());
                } else {
                    self.push_assistant(m);
                }
                self.reply_open = false;
            },
        }
    }

    /// Shows that a message could not be handed to the worker, as a turn of its
    /// own, so that it is not lost without a word.
    pub fn on_send_failed(&mut self)
        ensures
            final(self).history() == old(self).history().push((Role::Assistant, SEND_FAILED@)),
            !final(self).reply_open,
            final(self).input_buffer@ == old(self).input_buffer@,
            final(self).scroll_offset == old(self).scroll_offset,
    {
        self.push_assistant(String::from_str(SEND_FAILED));
        self.reply_open = false;
    }

    fn push_assistant(&mut self, text: String)
        ensures
            final(self).history() == old(self).history().push((Role::Assistant, text@)),
            final(self).reply_open == old(self).reply_open,
            final(self).input_buffer@ == old(self).input_buffer@,
            final(self).scroll_offset == old(self).scroll_offset,
    {
        let ghost before = self.chat_history@;
        let m = Message::new(Role::Assistant, text);
        self.chat_history.push(m);
        assert(turns(self.chat_history@) =~= turns(before).push(m@));
    }

    fn extend_last(&mut self, text: &str)
        requires
            old(self).chat_history@.len() > 0,
            old(self).chat_history@.last().role == Role::Assistant,
        ensures
            final(self).history() == old(self).history().update(
                old(self).history().len() - 1,
                (Role::Assistant, old(self).history().last().1 + text@),
            ),
            final(self).reply_open == old(self).reply_open,
            final(self).input_buffer@ == old(self).input_buffer@,
            final(self).scroll_offset == old(self).scroll_offset,
    {
        let ghost before = self.chat_history@;
        let mut m = self.chat_history.pop().unwrap();
        m.content.append(text);
        self.chat_history.push(m);
        assert(turns(self.chat_history@) =~= turns(before).update(before.len() - 1, m@));
    }
}

impl Default for AppState {
    fn default() -> (r: AppState)
        ensures
            r.input_buffer@ == Seq::<char>::empty(),
            r.chat_history@.len() == 0,
            r.scroll_offset == 0,
            !r.reply_open,
    {
        AppState::new()
    }
}

} // verus!
