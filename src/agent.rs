use vstd::prelude::*;
use vstd::string::*;
use crate::types::{Action, AgentCommand, Event, Message, OllamaRequest, OllamaResponse, Role, Turn, events, turns};
use crate::decoder::{LineDecoder, scan_from};

verus! {

/// The instructions that open every request.
pub const SYSTEM_PROMPT: &'static str = "You are an advanced Rust coding agent. You are designed to help the user understand and write Rust code.\nYou keep your responses short, efficient and concise\n\nTOOLS:\nYou have access to a local filesystem. You can read files to understand the codebase.\n\nTo read a file, you MUST output a tool call in this exact format:\n<read_file>src/main.rs</read_file>\n\nRULES:\n1. Only read one file at a time.\n2. After you output the <read_file> tag, STOP generating text immediately. Wait for the system to provide the file content.\n3. Do not hallucinate the file content. If you need to see a file, ask for it using the tool.\n\nEXAMPLE:\nUser: 'How does the main loop work?'\nAssistant: <read_file>src/main.rs</read_file>\nSystem: (Returns file content...)\nAssistant: 'The main loop handles events by...'";

/// Where chat requests are sent.
pub const API_URL: &'static str = "http://localhost:11434/api/chat";

/// The text of a failure to connect, before the transport's own message.
pub const NETWORK_ERROR: &'static str = "Network Error: ";

/// The text of a failed read of the reply, before the transport's own message.
pub const STREAM_ERROR: &'static str = "Stream Error: ";

/// The failure reported when the reply ends before its last frame.
pub const STREAM_CUT: &'static str = "Stream Error: the reply ended before it was complete";

/// The JSON string literal, quotes included, that stands for a text.
pub uninterp spec fn json_string(s: Seq<char>) -> Seq<char>;

/// Relies on serde_json::to_string for a str: it writes the text as one JSON
/// string literal. Writing into its in-memory buffer cannot fail.
#[verifier::external_body]
fn quote_json(s: &str) -> (r: String)
    ensures
        r@ == json_string(s@),
{
    match serde_json::to_string(s) {
        Ok(t) => t,
        Err(_) => String::new(),
    }
}

/// One turn as a JSON object.
pub open spec fn turn_json(t: Turn) -> Seq<char> {
    "{\"role\":"@ + json_string(t.0.name()) + ",\"content\":"@ + json_string(t.1) + "}"@
}

/// Turns as the elements of a JSON array, separated by commas.
pub open spec fn turns_json(ts: Seq<Turn>) -> Seq<char>
    decreases ts.len(),
{
    if ts.len() == 0 {
        Seq::empty()
    } else if ts.len() == 1 {
        turn_json(ts[0])
    } else {
        turns_json(ts.drop_last()) + ","@ + turn_json(ts.last())
    }
}

pub open spec fn bool_json(b: bool) -> Seq<char> {
    if b {
        "true"@
    } else {
        "false"@
    }
}

/// The body of a chat request, as compact JSON with its fields in order.
pub open spec fn request_json(model: Seq<char>, ts: Seq<Turn>, stream: bool) -> Seq<char> {
    "{\"model\":"@ + json_string(model) + ",\"messages\":["@ + turns_json(ts) + "],\"stream\":"@
        + bool_json(stream) + "}"@
}

/// Writes a request as the JSON body that is sent.
pub fn encode_request(req: &OllamaRequest) -> (r: String)
    ensures
        r@ == request_json(req.model@, turns(req.messages@), req.stream),
{
    let mut out = String::from_str("{\"model\":");
    let q = quote_json(req.model.as_str());
    out.append(q.as_str());
    out.append(",\"messages\":[");
    let ghost head = out@;
    let ms = &req.messages;
    let mut i: usize = 0;
    while i < ms.len()
        invariant
            i <= ms@.len(),
            out@ == head + turns_json(turns(ms@.subrange(0, i as int))),
        decreases ms@.len() - i,
    {
        let ghost prev = out@;
        if i > 0 {
            out.append(",");
        }
        out.append("{\"role\":");
        let qr = quote_json(ms[i].role.as_str());
        out.append(qr.as_str());
        out.append(",\"content\":");
        let qc = quote_json(ms[i].content.as_str());
        out.append(qc.as_str());
        out.append("}");
        proof {
            let sub = ms@.subrange(0, i as int);
            let sub1 = ms@.subrange(0, i + 1);
            assert(sub1 =~= sub.push(ms@[i as int]));
            let ts1 = turns(sub1);
            assert(ts1.drop_last() =~= turns(sub));
            assert(ts1.last() == ms@[i as int]@);
            if i == 0 {
                assert(ts1.len() == 1);
                assert(out@ =~= head + turns_json(ts1));
            } else {
                assert(out@ =~= head + turns_json(ts1));
            }
        }
        i = i + 1;
    }
    assert(ms@.subrange(0, i as int) =~= ms@);
    out.append("],\"stream\":");
    if req.stream {
        out.append("true");
    } else {
        out.append("false");
    }
    out.append("}");
    assert(out@ =~= request_json(req.model@, turns(req.messages@), req.stream));
    out
}

/// The worker's fixed configuration: the model, where requests go, and the
/// instructions that open every request.
pub struct CodingAgent {
    model: String,
    api_url: String,
    system_prompt: String,
}

impl CodingAgent {
    pub closed spec fn model_name(&self) -> Seq<char> {
        self.model@
    }

    pub closed spec fn endpoint(&self) -> Seq<char> {
        self.api_url@
    }

    pub closed spec fn prompt(&self) -> Seq<char> {
        self.system_prompt@
    }

    pub fn new(model: String) -> (r: CodingAgent)
        ensures
            r.model_name() == model@,
            r.endpoint() == API_URL@,
            r.prompt() == SYSTEM_PROMPT@,
    {
        CodingAgent {
            model,
            api_url: String::from_str(API_URL),
            system_prompt: String::from_str(SYSTEM_PROMPT),
        }
    }

    pub fn model(&self) -> (r: &str)
        ensures
            r@ == self.model_name(),
    {
        self.model.as_str()
    }

    pub fn api_url(&self) -> (r: &str)
        ensures
            r@ == self.endpoint(),
    {
        self.api_url.as_str()
    }

    /// The turns sent for a history: the system turn, then the history as it is.
    pub open spec fn sent_turns(&self, history: Seq<Message>) -> Seq<Turn> {
        seq![(Role::System, self.prompt())] + turns(history)
    }

    /// The request for a command: the model, the system turn followed by the
    /// command's history, and a streamed reply.
    pub fn request_for(&self, command: &AgentCommand) -> (r: OllamaRequest)
        ensures
            r.model@ == self.model_name(),
            turns(r.messages@) == self.sent_turns(command.history()),
            r.stream,
    {
        let AgentCommand::Run(history) = command;
        let mut messages: Vec<Message> = Vec::new();
        messages.push(Message::new(Role::System, self.system_prompt.clone()));
        let mut i: usize = 0;
        while i < history.len()
            invariant
                i <= history@.len(),
                turns(messages@) == seq![(Role::System, self.prompt())] + turns(history@.subrange(0, i as int)),
            decreases history@.len() - i,
        {
            let m = history[i].snapshot();
            let ghost before = messages@;
            messages.push(m);
            proof {
                let sub = history@.subrange(0, i as int);
                assert(history@.subrange(0, i + 1) =~= sub.push(history@[i as int]));
                assert(turns(messages@) =~= turns(before).push(m@));
                assert(turns(sub.push(history@[i as int])) =~= turns(sub).push(history@[i as int]@));
                assert(turns(messages@) =~= seq![(Role::System, self.prompt())] + turns(history@.subrange(0, i + 1)));
            }
            i = i + 1;
        }
        assert(history@.subrange(0, i as int) =~= history@);
        OllamaRequest { model: self.model.clone(), messages, stream: true }
    }

    /// The body sent for a command.
    pub fn request_body(&self, command: &AgentCommand) -> (r: String)
        ensures
            r@ == request_json(self.model_name(), self.sent_turns(command.history()), true),
    {
        let req = self.request_for(command);
        encode_request(&req)
    }
}

/// The same command sent twice to the same worker gives the same body, byte for
/// byte: the body depends on the model, the prompt and the turns alone.
pub proof fn lemma_request_body_deterministic(agent: CodingAgent, h1: Seq<Message>, h2: Seq<Message>)
    requires
        turns(h1) == turns(h2),
    ensures
        request_json(agent.model_name(), agent.sent_turns(h1), true) == request_json(
            agent.model_name(),
            agent.sent_turns(h2),
            true,
        ),
{
}

/// The events that one decoded frame gives: its text, if it has a message, then
/// the end of the turn, if it is the last.
pub open spec fn frame_events(f: OllamaResponse) -> Seq<Event> {
    (match f.message {
        Some(m) => seq![Event::Delta(m.content@)],
        None => Seq::empty(),
    }) + if f.done {
        seq![Event::Completed]
    } else {
        Seq::empty()
    }
}

/// The events that a turn gives for its lines, each decoded or not (`None`),
/// starting finished or not, and whether it is finished afterwards. Lines that
/// did not decode are skipped; nothing is read after the last frame.
pub open spec fn turn_events(finished: bool, parsed: Seq<Option<OllamaResponse>>) -> (Seq<Event>, bool)
    decreases parsed.len(),
{
    if parsed.len() == 0 {
        (Seq::empty(), finished)
    } else {
        let (ev, fin) = turn_events(finished, parsed.drop_last());
        if fin {
            (ev, fin)
        } else {
            match parsed.last() {
                None => (ev, fin),
                Some(f) => (ev + frame_events(f), f.done),
            }
        }
    }
}

/// A line that did not decode changes nothing: the lines after it give the
/// same events as they would alone.
pub proof fn lemma_malformed_line_skipped(finished: bool, parsed: Seq<Option<OllamaResponse>>)
    ensures
        turn_events(finished, seq![None] + parsed) == turn_events(finished, parsed),
    decreases parsed.len(),
{
    let whole = seq![None] + parsed;
    if parsed.len() == 0 {
        assert(whole.drop_last() =~= Seq::<Option<OllamaResponse>>::empty());
        assert(turn_events(finished, whole.drop_last()) == (Seq::<Event>::empty(), finished));
        assert(whole.last() is None);
    } else {
        assert(whole.drop_last() =~= seq![None] + parsed.drop_last());
        assert(whole.last() == parsed.last());
        lemma_malformed_line_skipped(finished, parsed.drop_last());
    }
}

/// The text fragments of frames, one for each, in order.
pub open spec fn deltas(frames: Seq<OllamaResponse>) -> Seq<Event> {
    frames.map_values(|f: OllamaResponse| Event::Delta(f.message.unwrap().content@))
}

/// Frames that each hold a message and none of which ends the turn are each
/// forwarded as one fragment, in order, and the turn is still open.
pub proof fn lemma_frames_forwarded_in_order(frames: Seq<OllamaResponse>)
    requires
        forall|i: int| 0 <= i < frames.len() ==> (#[trigger] frames[i]).message.is_some() && !frames[i].done,
    ensures
        turn_events(false, frames.map_values(|f: OllamaResponse| Some(f))) == (deltas(frames), false),
    decreases frames.len(),
{
    let parsed = frames.map_values(|f: OllamaResponse| Some(f));
    if frames.len() == 0 {
        assert(deltas(frames) =~= Seq::empty());
    } else {
        let init = frames.drop_last();
        assert(parsed.drop_last() =~= init.map_values(|f: OllamaResponse| Some(f)));
        lemma_frames_forwarded_in_order(init);
        let f = frames.last();
        assert(frames[frames.len() - 1] == f);
        assert(frame_events(f) =~= seq![Event::Delta(f.message.unwrap().content@)]);
        assert(deltas(frames) =~= deltas(init) + frame_events(f));
    }
}

/// Whether an event ends a turn.
pub open spec fn ends_turn(e: Event) -> bool {
    e is Completed || e is Failure
}

/// The events of a turn whose body ended after the given lines: those the
/// frames gave, then a failure where no frame ended the turn.
pub open spec fn events_until_end(parsed: Seq<Option<OllamaResponse>>) -> Seq<Event> {
    let (ev, fin) = turn_events(false, parsed);
    if fin {
        ev
    } else {
        ev.push(Event::Failure(STREAM_CUT@))
    }
}

/// While the frames are read, a turn gives only fragments, and at most one end:
/// the completion, as its last event, exactly when a frame ended the turn.
pub proof fn lemma_frames_end_at_most_once(parsed: Seq<Option<OllamaResponse>>)
    ensures
        ({
            let (ev, fin) = turn_events(false, parsed);
            &&& forall|i: int| 0 <= i < ev.len() ==> (#[trigger] ev[i]) is Delta || (i == ev.len() - 1
                && fin && ev[i] is Completed)
            &&& fin ==> ev.len() > 0 && ev.last() is Completed
        }),
    decreases parsed.len(),
{
    if parsed.len() > 0 {
        lemma_frames_end_at_most_once(parsed.drop_last());
        let (ev, fin) = turn_events(false, parsed.drop_last());
        if !fin {
            match parsed.last() {
                None => {},
                Some(f) => {
                    let fe = frame_events(f);
                    let all = ev + fe;
                    assert forall|i: int| 0 <= i < all.len() implies (#[trigger] all[i]) is Delta || (i
                        == all.len() - 1 && f.done && all[i] is Completed) by {
                        if i >= ev.len() {
                            if f.message is Some && i == ev.len() {
                                assert(all[i] == fe[0]);
                            } else {
                                assert(i == all.len() - 1);
                            }
                        }
                    }
                },
            }
        }
    }
}

/// Every turn whose reply is read to its end gives zero or more fragments and
/// then exactly one end: the completion or a failure, never both, never none.
pub proof fn lemma_exactly_one_end(parsed: Seq<Option<OllamaResponse>>)
    ensures
        events_until_end(parsed).len() > 0,
        ends_turn(events_until_end(parsed).last()),
        forall|i: int|
            0 <= i < events_until_end(parsed).len() - 1 ==> (#[trigger] events_until_end(parsed)[i]) is Delta,
{
    lemma_frames_end_at_most_once(parsed);
}

/// The worker's failure report for a request that could not be made.
pub fn connect_failure(err: &str) -> (r: Action)
    ensures
        r@ == Event::Failure(NETWORK_ERROR@ + err@),
{
    Action::Response(String::from_str(NETWORK_ERROR).concat(err))
}

/// One turn's reply being read: splits the body into lines, turns decoded
/// frames into events, and reports exactly one end, success or failure.
pub struct TurnStream {
    decoder: LineDecoder,
    finished: bool,
}

impl TurnStream {
    /// Whether the turn has ended: nothing more is read for it.
    pub closed spec fn is_over(&self) -> bool {
        self.finished
    }

    /// The bytes of the unfinished line.
    pub closed spec fn pending(&self) -> Seq<u8> {
        self.decoder.pending()
    }

    pub fn new() -> (r: TurnStream)
        ensures
            !r.is_over(),
            r.pending() == Seq::<u8>::empty(),
    {
        TurnStream { decoder: LineDecoder::new(), finished: false }
    }

    pub fn finished(&self) -> (r: bool)
        ensures
            r == self.is_over(),
    {
        self.finished
    }

    /// Takes in a chunk of the body and hands out the lines it completes, to be
    /// decoded. Once the turn is over, chunks are ignored.
    pub fn feed(&mut self, chunk: &[u8]) -> (lines: Vec<Vec<u8>>)
        ensures
            final(self).is_over() == old(self).is_over(),
            old(self).is_over() ==> lines@.len() == 0 && final(self).pending() == old(self).pending(),
            !old(self).is_over() ==> lines@.map_values(|l: Vec<u8>| l@) == scan_from(
                Seq::empty(),
                old(self).pending(),
                chunk@,
            ).0 && final(self).pending() == scan_from(Seq::empty(), old(self).pending(), chunk@).1,
    {
        if self.finished {
            Vec::new()
        } else {
            self.decoder.push(chunk)
        }
    }

    /// Takes one line's decoded frame (`None` where it did not decode) and
    /// returns the events to send.
    pub fn on_frame(&mut self, frame: Option<OllamaResponse>) -> (r: Vec<Action>)
        ensures
            (events(r@), final(self).is_over()) == turn_events(old(self).is_over(), seq![frame]),
            final(self).pending() == old(self).pending(),
    {
        let ghost g = frame;
        let ghost fin0 = self.finished;
        assert(seq![g].drop_last() =~= Seq::<Option<OllamaResponse>>::empty());
        assert(turn_events(fin0, seq![g].drop_last()) == (Seq::<Event>::empty(), fin0));
        assert(seq![g].last() == g);
        let mut r: Vec<Action> = Vec::new();
        if self.finished {
            assert(events(r@) =~= Seq::empty());
            return r;
        }
        match frame {
            None => {
                assert(events(r@) =~= Seq::empty());
            },
            Some(f) => {
                let done = f.done;
                match f.message {
                    Some(m) => {
                        r.push(Action::Stream(m.content));
                    },
                    None => {},
                }
                if done {
                    r.push(Action::Done);
                }
                self.finished = done;
                assert(events(r@) =~= frame_events(g.unwrap()));
            },
        }
        r
    }

    /// The body could not be read further: the turn fails with the read's
    /// error, unless it is already over.
    pub fn on_read_error(&mut self, err: &str) -> (r: Vec<Action>)
        ensures
            final(self).is_over(),
            old(self).is_over() ==> events(r@) == Seq::<Event>::empty(),
            !old(self).is_over() ==> events(r@) == seq![Event::Failure(STREAM_ERROR@ + err@)],
    {
        let mut r: Vec<Action> = Vec::new();
        if !self.finished {
            self.finished = true;
            r.push(Action::Response(String::from_str(STREAM_ERROR).concat(err)));
        }
        assert(events(r@) =~= if old(self).is_over() { Seq::empty() } else { seq![Event::Failure(STREAM_ERROR@ + err@)] });
        r
    }

    /// The body ended: where no frame has ended the turn, it fails, so that
    /// every turn has exactly one end. Bytes of an unfinished line are dropped.
    pub fn on_end(&mut self) -> (r: Vec<Action>)
        ensures
            final(self).is_over(),
            old(self).is_over() ==> events(r@) == Seq::<Event>::empty(),
            !old(self).is_over() ==> events(r@) == seq![Event::Failure(STREAM_CUT@)],
    {
        let mut r: Vec<Action> = Vec::new();
        if !self.finished {
            self.finished = true;
            r.push(Action::Response(String::from_str(STREAM_CUT)));
        }
        assert(events(r@) =~= if old(self).is_over() { Seq::empty() } else { seq![Event::Failure(STREAM_CUT@)] });
        r
    }
}

} // verus!
