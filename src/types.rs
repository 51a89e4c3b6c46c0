use vstd::prelude::*;

verus! {

/// Who a turn of the conversation is attributed to.
#[derive(Clone, Copy, Debug, PartialEq, Eq, Structural)]
pub enum Role {
    User,
    Assistant,
    System,
}

impl Role {
    /// The role's name on the wire.
    pub open spec fn name(self) -> Seq<char> {
        match self {
            Role::User => "user"@,
            Role::Assistant => "assistant"@,
            Role::System => "system"@,
        }
    }

    pub fn as_str(&self) -> (r: &'static str)
        ensures
            r@ == self.name(),
    {
        match self {
            Role::User => "user",
            Role::Assistant => "assistant",
            Role::System => "system",
        }
    }
}

/// One turn of the conversation.
#[derive(Clone, Debug)]
pub struct Message {
    pub role: Role,
    pub content: String,
}

/// A turn as a mathematical value.
pub type Turn = (Role, Seq<char>);

impl View for Message {
    type V = Turn;

    open spec fn view(&self) -> Turn {
        (self.role, self.content@)
    }
}

/// The turns that a sequence of messages stands for.
pub open spec fn turns(ms: Seq<Message>) -> Seq<Turn> {
    ms.map_values(|m: Message| m@)
}

impl Message {
    pub fn new(role: Role, content: String) -> (r: Message)
        ensures
            r@ == (role, content@),
    {
        Message { role, content }
    }

    /// A copy of the turn.
    pub fn snapshot(&self) -> (r: Message)
        ensures
            r@ == self@,
    {
        Message { role: self.role, content: self.content.clone() }
    }
}

/// A copy of a whole history, turn by turn.
pub fn snapshot_history(history: &Vec<Message>) -> (r: Vec<Message>)
    ensures
        turns(r@) == turns(history@),
{
    let mut r: Vec<Message> = Vec::new();
    let mut i: usize = 0;
    while i < history.len()
        invariant
            i <= history@.len(),
            turns(r@) == turns(history@.subrange(0, i as int)),
        decreases history@.len() - i,
    {
        let m = history[i].snapshot();
        let ghost before = r@;
        r.push(m);
        proof {
            let sub = history@.subrange(0, i as int);
            assert(history@.subrange(0, i + 1) =~= sub.push(history@[i as int]));
            assert(turns(r@) =~= turns(before).push(m@));
            assert(turns(sub.push(history@[i as int])) =~= turns(sub).push(history@[i as int]@));
        }
        i = i + 1;
    }
    assert(history@.subrange(0, i as int) =~= history@);
    r
}

/// The body of a chat request: the model, the turns to replay, and whether
/// the reply is streamed.
#[derive(Clone, Debug)]
pub struct OllamaRequest {
    pub model: String,
    pub messages: Vec<Message>,
    pub stream: bool,
}

/// One decoded line of a streamed reply.
#[derive(Clone, Debug)]
pub struct OllamaResponse {
    pub message: Option<Message>,
    pub done: bool,
}

/// An event that the worker hands to the interactive loop.
#[derive(Clone, Debug)]
pub enum Action {
    /// The current turn failed; the text says why. Nothing follows it.
    Response(String),
    /// A fragment of the reply, to append to the reply being streamed.
    Stream(String),
    /// The current turn is finished.
    Done,
}

/// An event as a mathematical value.
pub enum Event {
    Failure(Seq<char>),
    Delta(Seq<char>),
    Completed,
}

impl View for Action {
    type V = Event;

    open spec fn view(&self) -> Event {
        match self {
            Action::Response(s) => Event::Failure(s@),
            Action::Stream(s) => Event::Delta(s@),
            Action::Done => Event::Completed,
        }
    }
}

/// The events that a sequence of actions stands for.
pub open spec fn events(acts: Seq<Action>) -> Seq<Event> {
    acts.map_values(|a: Action| a@)
}

/// A request to the worker: process one snapshot of the history.
#[derive(Clone, Debug)]
pub enum AgentCommand {
    Run(Vec<Message>),
}

impl AgentCommand {
    /// The history that the command carries.
    pub open spec fn history(&self) -> Seq<Message> {
        match self {
            AgentCommand::Run(h) => h@,
        }
    }
}

/// A tool call found in the assistant's text.
#[derive(Clone, Debug, PartialEq, Eq)]
pub enum ToolCall {
    ReadFile(String),
    NoCall,
}

} // verus!
