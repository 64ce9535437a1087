//! One chat turn: the credential check, the tools the turn runs with, and
//! the forwarding of the model's stream to the user interface.
use vstd::prelude::*;

verus! {

/// One item of the model's completion stream, as a turn sees it.
pub enum StreamEvent {
    /// A piece of the reply's text.
    Text(String),
    /// The model's final response: the turn is complete.
    FinalResponse,
    /// Any other item (tool-call bookkeeping and the like).
    Other,
    /// The stream failed, with the error's description.
    Failure(String),
}

/// One fragment sent to the user interface.
pub struct AgentChunk {
    pub delta: Option<String>,
    pub tool_calls: Option<serde_json::Value>,
}

/// Why a turn failed, with the fragment that tells the user.
pub struct TurnFailure {
    pub chunk: AgentChunk,
    pub message: String,
}

/// What a turn does with one item of the stream.
pub enum TurnStep {
    /// Send this fragment and read on.
    Forward(AgentChunk),
    /// Read on.
    Ignore,
    /// Stop: the turn succeeded.
    Complete,
    /// Send the failure's fragment and stop: the turn failed.
    Abort(TurnFailure),
}

pub open spec fn missing_credential_text() -> Seq<char> {
    "OPENAI_API_KEY environment variable not set"@
}

/// The fragment carries `text` and no tool calls.
pub open spec fn chunk_carries(c: AgentChunk, text: Seq<char>) -> bool {
    &&& c.delta.is_some()
    &&& c.delta.unwrap()@ == text
    &&& c.tool_calls.is_none()
}

/// What a failed stream shows the user.
pub open spec fn stream_error_text(e: Seq<char>) -> Seq<char> {
    "Error: "@ + e
}

/// What a failed stream makes the turn return.
pub open spec fn stream_error_message(e: Seq<char>) -> Seq<char> {
    "Stream error: "@ + e
}

/// The step a turn takes on one item of the stream.
pub open spec fn step_for(event: StreamEvent, step: TurnStep) -> bool {
    match event {
        StreamEvent::Text(t) => step is Forward && chunk_carries(step->Forward_0, t@),
        StreamEvent::FinalResponse => step is Complete,
        StreamEvent::Other => step is Ignore,
        StreamEvent::Failure(e) => step is Abort && chunk_carries(
            step->Abort_0.chunk,
            stream_error_text(e@),
        ) && step->Abort_0.message@ == stream_error_message(e@),
    }
}

/// The texts a turn sends for the stream `events`, in stream order: each
/// text item's text, up to the final response; after a failure, the
/// failure's text, and nothing more.
pub open spec fn turn_texts(events: Seq<StreamEvent>) -> Seq<Seq<char>>
    decreases events.len(),
{
    if events.len() == 0 {
        Seq::empty()
    } else {
        match events[0] {
            StreamEvent::Text(t) => seq![t@] + turn_texts(events.drop_first()),
            StreamEvent::FinalResponse => Seq::empty(),
            StreamEvent::Other => turn_texts(events.drop_first()),
            StreamEvent::Failure(e) => seq![stream_error_text(e@)],
        }
    }
}

/// How a turn over the stream `events` ends: with the first failure's
/// message if it comes before any final response, else in success.
pub open spec fn turn_result(events: Seq<StreamEvent>) -> Result<(), Seq<char>>
    decreases events.len(),
{
    if events.len() == 0 {
        Ok(())
    } else {
        match events[0] {
            StreamEvent::Text(_) => turn_result(events.drop_first()),
            StreamEvent::FinalResponse => Ok(()),
            StreamEvent::Other => turn_result(events.drop_first()),
            StreamEvent::Failure(e) => Err(stream_error_message(e@)),
        }
    }
}

/// The fragments carry the texts one for one.
pub open spec fn chunks_carry(chunks: Seq<AgentChunk>, texts: Seq<Seq<char>>) -> bool {
    &&& chunks.len() == texts.len()
    &&& forall|i: int| 0 <= i < chunks.len() ==> chunk_carries(#[trigger] chunks[i], texts[i])
}

fn text_chunk(text: String) -> (r: AgentChunk)
    ensures
        chunk_carries(r, text@),
{
    AgentChunk { delta: Some(text), tool_calls: None }
}

/// A turn may start only with a model credential. Without one it fails at
/// once, before anything is sent over the network, with one fragment that
/// says so.
pub fn check_credential(credential_present: bool) -> (r: Result<(), TurnFailure>)
    ensures
        r.is_ok() == credential_present,
        r.is_err() ==> chunk_carries(r->Err_0.chunk, missing_credential_text()),
        r.is_err() ==> r->Err_0.message@ == missing_credential_text(),
{
    if credential_present {
        Ok(())
    } else {
        let text = "OPENAI_API_KEY environment variable not set";
        Err(TurnFailure { chunk: text_chunk(text.to_string()), message: text.to_string() })
    }
}

/// The tools a turn adds to the built-in one: those discovered, or none when
/// discovery failed.
pub fn tools_for_turn<T, E>(discovered: Result<Vec<T>, E>) -> (r: Vec<T>)
    ensures
        discovered.is_ok() ==> r == discovered->Ok_0,
        discovered.is_err() ==> r@.len() == 0,
{
    match discovered {
        Ok(tools) => tools,
        Err(_) => Vec::new(),
    }
}

/// The step to take on one item of the model's stream.
pub fn on_stream_event(event: &StreamEvent) -> (r: TurnStep)
    ensures
        step_for(*event, r),
{
    match event {
        StreamEvent::Text(t) => TurnStep::Forward(text_chunk(t.clone())),
        StreamEvent::FinalResponse => TurnStep::Complete,
        StreamEvent::Other => TurnStep::Ignore,
        StreamEvent::Failure(e) => {
            let mut shown = "Error: ".to_string();
            shown.append(e.as_str());
            let mut message = "Stream error: ".to_string();
            message.append(e.as_str());
            TurnStep::Abort(TurnFailure { chunk: text_chunk(shown), message })
        },
    }
}

/// Runs a turn over a whole stream: the fragments sent, in order, and how
/// the turn ends.
pub fn run_turn(events: &Vec<StreamEvent>) -> (r: (Vec<AgentChunk>, Result<(), String>))
    ensures
        chunks_carry(r.0@, turn_texts(events@)),
        r.1.is_ok() == turn_result(events@).is_ok(),
        r.1.is_err() ==> r.1->Err_0@ == turn_result(events@)->Err_0,
{
    let mut chunks: Vec<AgentChunk> = Vec::new();
    let mut i: usize = 0;
    assert(events@.skip(0) =~= events@);
    assert(chunks_texts_of(chunks@) =~= Seq::<Seq<char>>::empty());
    while i < events.len()
        invariant
            i <= events@.len(),
            chunks@.len() <= i,
            turn_texts(events@) == chunks_texts_of(chunks@) + turn_texts(events@.skip(i as int)),
            forall|j: int| 0 <= j < chunks@.len() ==> (#[trigger] chunks@[j]).delta.is_some()
                && chunks@[j].tool_calls.is_none(),
            turn_result(events@) == turn_result(events@.skip(i as int)),
        decreases events@.len() - i,
    {
        let ghost rest = events@.skip(i as int);
        assert(rest[0] == events@[i as int]);
        assert(rest.drop_first() =~= events@.skip(i + 1));
        match on_stream_event(&events[i]) {
            TurnStep::Forward(c) => {
                let ghost before = chunks@;
                chunks.push(c);
                assert(chunks_texts_of(chunks@) =~= chunks_texts_of(before).push(
                    chunks@.last().delta.unwrap()@,
                ));
            },
            TurnStep::Ignore => {},
            TurnStep::Complete => {
                assert(turn_texts(events@) =~= chunks_texts_of(chunks@));
                return (chunks, Ok(()));
            },
            TurnStep::Abort(failure) => {
                let ghost before = chunks@;
                chunks.push(failure.chunk);
                assert(chunks_texts_of(chunks@) =~= chunks_texts_of(before).push(
                    chunks@.last().delta.unwrap()@,
                ));
                assert(turn_texts(events@) =~= chunks_texts_of(chunks@));
                return (chunks, Err(failure.message));
            },
        }
        i = i + 1;
    }
    assert(events@.skip(i as int).len() == 0);
    assert(turn_texts(events@) =~= chunks_texts_of(chunks@));
    (chunks, Ok(()))
}

/// The texts the fragments carry.
pub open spec fn chunks_texts_of(chunks: Seq<AgentChunk>) -> Seq<Seq<char>> {
    chunks.map_values(|c: AgentChunk| c.delta.unwrap()@)
}

/// The texts of a stream made of text items only.
pub open spec fn texts_of(events: Seq<StreamEvent>) -> Seq<Seq<char>> {
    events.map_values(|e: StreamEvent| e->Text_0@)
}

/// A stream of text items followed by the final response makes the turn
/// send exactly those texts, in the order they came, and succeed.
pub proof fn lemma_texts_then_final(texts: Seq<StreamEvent>)
    requires
        forall|i: int| 0 <= i < texts.len() ==> #[trigger] texts[i] is Text,
    ensures
        turn_texts(texts.push(StreamEvent::FinalResponse)) == texts_of(texts),
        turn_result(texts.push(StreamEvent::FinalResponse)) == Ok::<(), Seq<char>>(()),
    decreases texts.len(),
{
    let events = texts.push(StreamEvent::FinalResponse);
    if texts.len() > 0 {
        let rest = texts.drop_first();
        assert forall|i: int| 0 <= i < rest.len() implies #[trigger] rest[i] is Text by {
            assert(rest[i] == texts[i + 1]);
        }
        lemma_texts_then_final(rest);
        assert(events.drop_first() =~= rest.push(StreamEvent::FinalResponse));
        assert(events[0] == texts[0]);
        assert(texts_of(texts) =~= seq![texts[0]->Text_0@] + texts_of(rest));
    } else {
        assert(texts_of(texts) =~= Seq::<Seq<char>>::empty());
    }
}

} // verus!
