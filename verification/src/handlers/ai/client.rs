//! The exchange with the provider: what is asked, and what is made of the
//! answer, in one piece or as a stream of fragments.

use vstd::prelude::*;
use vstd::string::*;

use crate::handlers::ai::model::{
    Content, ContentModel, ContentResponseModel, GeminiRequest, GeminiResponse,
};
use crate::handlers::ai::prompt::{fill_prompt, system_prompt, FALLBACK_REPLY, READY_REPLY};

verus! {

/// Where a reply is asked for in one piece.
pub const GENERATE_URL: &'static str =
    "https://generativelanguage.googleapis.com/v1beta/models/gemini-2.5-flash:generateContent";

/// Where a reply is asked for as a stream.
pub const STREAM_URL: &'static str =
    "https://generativelanguage.googleapis.com/v1beta/models/gemini-2.5-flash:streamGenerateContent";

/// The variable of the process environment that holds the provider's key.
pub const API_KEY_VARIABLE: &'static str = "GEMINI_API_KEY";

/// The two turns that open every request: the system prompt with the
/// session's material, spoken as the user, and the student's readiness,
/// spoken as the model.
pub open spec fn priming_turns(material: Seq<char>) -> Seq<ContentModel> {
    seq![
        ContentModel { role: "user"@, parts: seq![system_prompt(material)] },
        ContentModel { role: "model"@, parts: seq![READY_REPLY@] },
    ]
}

/// The turns of a request: the priming turns, then the history unchanged.
pub open spec fn request_turns(material: Seq<char>, history: Seq<ContentModel>) -> Seq<
    ContentModel,
> {
    priming_turns(material) + history
}

/// Builds the request for a session's material and its conversation so
/// far. The same request serves the single call and the stream.
pub fn build_request(study_material: &str, conversation_history: Vec<Content>) -> (r:
    GeminiRequest)
    ensures
        r.deep_view() == request_turns(study_material@, conversation_history.deep_view()),
{
    let ghost history = conversation_history.deep_view();
    let mut conversation_history = conversation_history;
    let mut contents: Vec<Content> = Vec::new();
    contents.push(Content::single("user", fill_prompt(study_material)));
    contents.push(Content::single("model", String::from_str(READY_REPLY)));
    assert(contents.deep_view() =~= priming_turns(study_material@));
    contents.append(&mut conversation_history);
    assert(contents.deep_view() =~= request_turns(study_material@, history));
    GeminiRequest { contents }
}

/// The text that a response carries: the first part of the first
/// candidate, where there is one.
pub open spec fn first_text(candidates: Seq<ContentResponseModel>) -> Option<Seq<char>> {
    if candidates.len() > 0 && candidates[0].parts.len() > 0 {
        Some(candidates[0].parts[0])
    } else {
        None
    }
}

/// The reply that a response stands for: its text, or the fallback reply
/// where it carries none.
pub open spec fn reply_of(candidates: Seq<ContentResponseModel>) -> Seq<char> {
    match first_text(candidates) {
        Some(text) => text,
        None => FALLBACK_REPLY@,
    }
}

/// Takes the text out of a response: the first part of the first
/// candidate. Further candidates and parts are not looked at.
pub fn extract_text(response: &GeminiResponse) -> (r: Option<String>)
    ensures
        r.deep_view() == first_text(response.deep_view()),
{
    if response.candidates.len() > 0 {
        let candidate = &response.candidates[0];
        if candidate.content.parts.len() > 0 {
            return Some(candidate.content.parts[0].text.clone());
        }
    }
    None
}

/// The reply for a response. A response without candidate or part is
/// answered with the fallback reply, never with an error.
pub fn reply_text(response: &GeminiResponse) -> (r: String)
    ensures
        r@ == reply_of(response.deep_view()),
        response.deep_view().len() == 0 ==> r@ == FALLBACK_REPLY@,
{
    match extract_text(response) {
        Some(text) => text,
        None => String::from_str(FALLBACK_REPLY),
    }
}

/// Why the provider gave no reply.
#[derive(Clone, Copy, Debug, PartialEq, Eq, Structural)]
pub enum GatewayError {
    /// The request did not reach the provider, or the answer did not
    /// arrive whole.
    Transport,
    /// The answer's body is no response.
    MalformedResponse,
}

/// What came back from a single call.
#[derive(Debug, PartialEq, Eq)]
pub enum ModelAnswer {
    /// A response that was received and decoded.
    Response(GeminiResponse),
    /// The call failed on the way.
    TransportFailed,
    /// The body could not be decoded as a response.
    MalformedBody,
}

/// What a `ModelAnswer` holds.
pub enum ModelAnswerModel {
    Response(Seq<ContentResponseModel>),
    TransportFailed,
    MalformedBody,
}

impl DeepView for ModelAnswer {
    type V = ModelAnswerModel;

    open spec fn deep_view(&self) -> ModelAnswerModel {
        match self {
            ModelAnswer::Response(response) => ModelAnswerModel::Response(response.deep_view()),
            ModelAnswer::TransportFailed => ModelAnswerModel::TransportFailed,
            ModelAnswer::MalformedBody => ModelAnswerModel::MalformedBody,
        }
    }
}

/// The outcome of a single call: the reply of a decoded response, and an
/// error for a failed transport or an undecodable body only.
pub open spec fn generated(answer: ModelAnswerModel) -> Result<Seq<char>, GatewayError> {
    match answer {
        ModelAnswerModel::Response(candidates) => Ok(reply_of(candidates)),
        ModelAnswerModel::TransportFailed => Err(GatewayError::Transport),
        ModelAnswerModel::MalformedBody => Err(GatewayError::MalformedResponse),
    }
}

/// Concludes a single call from what came back.
pub fn conclude(answer: ModelAnswer) -> (r: Result<String, GatewayError>)
    ensures
        match generated(answer.deep_view()) {
            Ok(reply) => r is Ok && r->Ok_0@ == reply,
            Err(error) => r == Err::<String, GatewayError>(error),
        },
{
    match answer {
        ModelAnswer::Response(response) => Ok(reply_text(&response)),
        ModelAnswer::TransportFailed => Err(GatewayError::Transport),
        ModelAnswer::MalformedBody => Err(GatewayError::MalformedResponse),
    }
}

/// What the transport of a streamed call delivers, one at a time.
#[derive(Debug, PartialEq, Eq)]
pub enum ChunkEvent {
    /// A chunk of the body: the response it decodes to as one whole
    /// object, or `None` where it does not decode.
    Chunk(Option<GeminiResponse>),
    /// The transport failed, before the first chunk or after any.
    TransportFailed,
    /// The transport closed the body.
    Closed,
}

/// What a `ChunkEvent` holds.
pub enum ChunkEventModel {
    Chunk(Option<Seq<ContentResponseModel>>),
    TransportFailed,
    Closed,
}

impl DeepView for ChunkEvent {
    type V = ChunkEventModel;

    open spec fn deep_view(&self) -> ChunkEventModel {
        match self {
            ChunkEvent::Chunk(response) => ChunkEventModel::Chunk(response.deep_view()),
            ChunkEvent::TransportFailed => ChunkEventModel::TransportFailed,
            ChunkEvent::Closed => ChunkEventModel::Closed,
        }
    }
}

/// An element of the streamed reply: a fragment of text or the failure
/// that ends the stream.
pub type StreamItemModel = Result<Seq<char>, GatewayError>;

/// The text of an element as characters.
pub open spec fn item_model(item: Result<String, GatewayError>) -> StreamItemModel {
    match item {
        Ok(text) => Ok(text@),
        Err(error) => Err(error),
    }
}

/// What one event makes of a stream: whether the stream has ended after
/// it, and the element that it yields, if any. A chunk yields its text at
/// once where it decodes and carries one, and is dropped where it does
/// not; a failed transport yields the error and ends the stream; an ended
/// stream stays ended and yields nothing.
pub open spec fn stream_step(ended: bool, event: ChunkEventModel) -> (bool, Option<StreamItemModel>) {
    if ended {
        (true, None)
    } else {
        match event {
            ChunkEventModel::Chunk(Some(candidates)) => match first_text(candidates) {
                Some(text) => (false, Some(Ok(text))),
                None => (false, None),
            },
            ChunkEventModel::Chunk(None) => (false, None),
            ChunkEventModel::TransportFailed => (true, Some(Err(GatewayError::Transport))),
            ChunkEventModel::Closed => (true, None),
        }
    }
}

/// Whether a stream has ended after the events delivered to it.
pub open spec fn stream_ended_after(ended: bool, events: Seq<ChunkEventModel>) -> bool
    decreases events.len(),
{
    if events.len() == 0 {
        ended
    } else {
        stream_ended_after(stream_step(ended, events[0]).0, events.drop_first())
    }
}

/// The elements that a stream yields for the events delivered to it, in
/// the order of the events.
pub open spec fn stream_items(ended: bool, events: Seq<ChunkEventModel>) -> Seq<StreamItemModel>
    decreases events.len(),
{
    if events.len() == 0 {
        Seq::empty()
    } else {
        let (ended_after, item) = stream_step(ended, events[0]);
        let rest = stream_items(ended_after, events.drop_first());
        match item {
            Some(item) => seq![item] + rest,
            None => rest,
        }
    }
}

/// The reply of one streamed call as it is delivered. A stream is opened
/// once for one request and cannot be started again after it has ended.
#[derive(Debug, PartialEq, Eq)]
pub struct FragmentStream {
    ended: bool,
}

impl FragmentStream {
    /// Whether the stream has ended.
    pub closed spec fn ended(&self) -> bool {
        self.ended
    }

    /// A stream for a request that was just sent.
    pub fn open() -> (r: FragmentStream)
        ensures
            !r.ended(),
    {
        FragmentStream { ended: false }
    }

    /// Whether the stream has ended.
    pub fn is_ended(&self) -> (r: bool)
        ensures
            r == self.ended(),
    {
        self.ended
    }

    /// Takes the next event of the transport and hands back the element
    /// that the stream yields for it, if any.
    pub fn on_event(&mut self, event: ChunkEvent) -> (item: Option<Result<String, GatewayError>>)
        ensures
            final(self).ended() == stream_step(old(self).ended(), event.deep_view()).0,
            match stream_step(old(self).ended(), event.deep_view()).1 {
                Some(expected) => item is Some && item_model(item->Some_0) == expected,
                None => item is None,
            },
    {
        if self.ended {
            return None;
        }
        match event {
            ChunkEvent::Chunk(Some(response)) => match extract_text(&response) {
                Some(text) => Some(Ok(text)),
                None => None,
            },
            ChunkEvent::Chunk(None) => None,
            ChunkEvent::TransportFailed => {
                self.ended = true;
                Some(Err(GatewayError::Transport))
            },
            ChunkEvent::Closed => {
                self.ended = true;
                None
            },
        }
    }
}

/// A stream that has ended yields nothing more, whatever is delivered to
/// it, and stays ended.
pub proof fn lemma_ended_stream_is_silent(events: Seq<ChunkEventModel>)
    ensures
        stream_items(true, events) == Seq::<StreamItemModel>::empty(),
        stream_ended_after(true, events),
    decreases events.len(),
{
    if events.len() > 0 {
        lemma_ended_stream_is_silent(events.drop_first());
    }
}

/// What a stream yields for one run of events followed by another is what
/// it yields for the first run, then what it yields for the second from
/// the state the first left it in: elements already yielded are never
/// taken back or changed by what is delivered later.
pub proof fn lemma_stream_items_in_order(
    ended: bool,
    first: Seq<ChunkEventModel>,
    second: Seq<ChunkEventModel>,
)
    ensures
        stream_items(ended, first + second) == stream_items(ended, first) + stream_items(
            stream_ended_after(ended, first),
            second,
        ),
        stream_ended_after(ended, first + second) == stream_ended_after(
            stream_ended_after(ended, first),
            second,
        ),
    decreases first.len(),
{
    if first.len() == 0 {
        assert(first + second =~= second);
        assert(stream_items(ended, first) + stream_items(ended, second) =~= stream_items(
            ended,
            second,
        ));
    } else {
        let next = stream_step(ended, first[0]).0;
        assert((first + second).drop_first() =~= first.drop_first() + second);
        assert((first + second)[0] == first[0]);
        lemma_stream_items_in_order(next, first.drop_first(), second);
        let tail = stream_items(next, first.drop_first());
        let later = stream_items(stream_ended_after(ended, first), second);
        match stream_step(ended, first[0]).1 {
            Some(item) => {
                assert(seq![item] + (tail + later) =~= (seq![item] + tail) + later);
            },
            None => {},
        }
    }
}

/// Chunks alone never end a stream, and each element they yield is a
/// fragment of text.
pub proof fn lemma_chunks_keep_stream_open(chunks: Seq<ChunkEventModel>)
    requires
        forall|i: int| 0 <= i < chunks.len() ==> chunks[i] is Chunk,
    ensures
        !stream_ended_after(false, chunks),
        forall|k: int|
            0 <= k < stream_items(false, chunks).len() ==> stream_items(false, chunks)[k] is Ok,
    decreases chunks.len(),
{
    if chunks.len() > 0 {
        lemma_chunks_keep_stream_open(chunks.drop_first());
    }
}

/// A transport that fails after some chunks ends the stream with the error
/// as the next element: the fragments of the chunks come first, as they
/// would without the failure, then the error, and nothing after it.
pub proof fn lemma_failure_ends_stream(
    chunks: Seq<ChunkEventModel>,
    later: Seq<ChunkEventModel>,
)
    requires
        forall|i: int| 0 <= i < chunks.len() ==> chunks[i] is Chunk,
    ensures
        stream_items(false, chunks + seq![ChunkEventModel::TransportFailed] + later)
            == stream_items(false, chunks) + seq![
            Err::<Seq<char>, GatewayError>(GatewayError::Transport),
        ],
        stream_ended_after(false, chunks + seq![ChunkEventModel::TransportFailed] + later),
{
    let failure = seq![ChunkEventModel::TransportFailed];
    lemma_chunks_keep_stream_open(chunks);
    assert(chunks + failure + later =~= chunks + (failure + later));
    lemma_stream_items_in_order(false, chunks, failure + later);
    lemma_stream_items_in_order(false, failure, later);
    lemma_ended_stream_is_silent(later);
    assert(failure.drop_first() =~= Seq::<ChunkEventModel>::empty());
    assert(stream_items(true, failure.drop_first()) =~= Seq::<StreamItemModel>::empty());
    assert(stream_items(false, failure) =~= seq![
        Err::<Seq<char>, GatewayError>(GatewayError::Transport),
    ]);
    assert(stream_ended_after(true, failure.drop_first()));
    assert(stream_ended_after(false, failure));
}

} // verus!
