//! The shapes of the provider's request and response.

use vstd::prelude::*;
use vstd::string::*;

use crate::models::message::{Message, MessageModel, MessageRole};

verus! {

/// One piece of text of a turn.
#[derive(Debug, PartialEq, Eq)]
pub struct Part {
    pub text: String,
}

impl DeepView for Part {
    type V = Seq<char>;

    open spec fn deep_view(&self) -> Seq<char> {
        self.text@
    }
}

/// One turn of the conversation as the provider reads it: who speaks,
/// `"user"` or `"model"`, and what is said.
#[derive(Debug, PartialEq, Eq)]
pub struct Content {
    pub role: String,
    pub parts: Vec<Part>,
}

/// What a `Content` holds: the role and the text of each part.
pub struct ContentModel {
    pub role: Seq<char>,
    pub parts: Seq<Seq<char>>,
}

impl DeepView for Content {
    type V = ContentModel;

    open spec fn deep_view(&self) -> ContentModel {
        ContentModel { role: self.role@, parts: self.parts.deep_view() }
    }
}

/// The body of a request to the provider: the turns in order.
#[derive(Debug, PartialEq, Eq)]
pub struct GeminiRequest {
    pub contents: Vec<Content>,
}

impl DeepView for GeminiRequest {
    type V = Seq<ContentModel>;

    open spec fn deep_view(&self) -> Seq<ContentModel> {
        self.contents.deep_view()
    }
}

/// One piece of text of a candidate.
#[derive(Debug, PartialEq, Eq)]
pub struct PartResponse {
    pub text: String,
}

impl DeepView for PartResponse {
    type V = Seq<char>;

    open spec fn deep_view(&self) -> Seq<char> {
        self.text@
    }
}

/// What a candidate says. On the wire the second field is named `role`;
/// it is empty where the response names none.
#[derive(Debug, PartialEq, Eq)]
pub struct ContentResponse {
    pub parts: Vec<PartResponse>,
    pub _role: String,
}

/// What a `ContentResponse` holds: the text of each part and the role.
pub struct ContentResponseModel {
    pub parts: Seq<Seq<char>>,
    pub role: Seq<char>,
}

impl DeepView for ContentResponse {
    type V = ContentResponseModel;

    open spec fn deep_view(&self) -> ContentResponseModel {
        ContentResponseModel { parts: self.parts.deep_view(), role: self._role@ }
    }
}

/// One reply that the provider proposes.
#[derive(Debug, PartialEq, Eq)]
pub struct Candidate {
    pub content: ContentResponse,
}

impl DeepView for Candidate {
    type V = ContentResponseModel;

    open spec fn deep_view(&self) -> ContentResponseModel {
        self.content.deep_view()
    }
}

/// The body of the provider's response: the candidates in order.
#[derive(Debug, PartialEq, Eq)]
pub struct GeminiResponse {
    pub candidates: Vec<Candidate>,
}

impl DeepView for GeminiResponse {
    type V = Seq<ContentResponseModel>;

    open spec fn deep_view(&self) -> Seq<ContentResponseModel> {
        self.candidates.deep_view()
    }
}

/// The provider's word for a role: the user speaks as `"user"`, the
/// assistant as `"model"`.
pub open spec fn gateway_role_name(role: MessageRole) -> Seq<char> {
    match role {
        MessageRole::User => "user"@,
        MessageRole::Assistant => "model"@,
    }
}

/// The role that a word of the provider denotes, if any.
pub open spec fn role_of_gateway_name(name: Seq<char>) -> Option<MessageRole> {
    if name == "user"@ {
        Some(MessageRole::User)
    } else if name == "model"@ {
        Some(MessageRole::Assistant)
    } else {
        None
    }
}

/// The turn that the provider reads for a stored message: the role in the
/// provider's word and the content as the only part.
pub open spec fn gateway_turn(message: MessageModel) -> ContentModel {
    ContentModel { role: gateway_role_name(message.role), parts: seq![message.content] }
}

/// The turns for a history of stored messages, one for each, in order.
pub open spec fn gateway_turns(history: Seq<MessageModel>) -> Seq<ContentModel> {
    Seq::new(history.len(), |i: int| gateway_turn(history[i]))
}

/// The provider's word for a role.
pub fn gateway_role(role: MessageRole) -> (r: &'static str)
    ensures
        r@ == gateway_role_name(role),
{
    match role {
        MessageRole::User => "user",
        MessageRole::Assistant => "model",
    }
}

impl Content {
    /// A turn of one part.
    pub fn single(role: &str, text: String) -> (r: Content)
        ensures
            r.deep_view() == (ContentModel { role: role@, parts: seq![text@] }),
    {
        let mut parts: Vec<Part> = Vec::new();
        parts.push(Part { text });
        let r = Content { role: String::from_str(role), parts };
        assert(r.parts.deep_view() =~= seq![text@]);
        r
    }

    /// The turn that the provider reads for a stored message.
    pub fn from_message(message: Message) -> (r: Content)
        ensures
            r.deep_view() == gateway_turn(message.deep_view()),
    {
        Content::single(gateway_role(message.role), message.content)
    }
}

/// Maps a stored history to the provider's turns: one turn for
/// each message, in order, none left out.
pub fn to_gateway_turns(history: Vec<Message>) -> (r: Vec<Content>)
    ensures
        r.deep_view() == gateway_turns(history.deep_view()),
{
    let ghost stored = history@;
    let mut turns: Vec<Content> = Vec::new();
    for message in it: history
        invariant
            it.seq() == stored,
            turns.len() == it.index(),
            forall|k: int|
                0 <= k < turns.len() ==> #[trigger] turns[k].deep_view() == gateway_turn(
                    stored[k].deep_view(),
                ),
    {
        turns.push(Content::from_message(message));
    }
    assert(turns.deep_view() =~= gateway_turns(history.deep_view()));
    turns
}

/// The provider's words name the two roles without loss: each role is read
/// back from its word, and the two words differ.
pub proof fn lemma_gateway_role_lossless(role: MessageRole)
    ensures
        role_of_gateway_name(gateway_role_name(role)) == Some(role),
        gateway_role_name(MessageRole::User) != gateway_role_name(MessageRole::Assistant),
{
    reveal_strlit("user");
    reveal_strlit("model");
    assert("user"@.len() == 4);
    assert("model"@.len() == 5);
}

} // verus!
