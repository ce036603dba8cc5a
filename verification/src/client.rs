//! The client: from a finished request to the call to make, and from what
//! came back to a result.

use vstd::prelude::*;
use vstd::string::StringExecFns;
use crate::api::{HasResponse, Shape};
use crate::error::{Error, ErrorView};
use crate::method::{Method, Verb};
use crate::payload::{body_view, Payload, ScalarView};
use crate::request::{Request, RequestView};

verus! {

/// A client: it holds the API token under which its calls are made.
#[derive(Clone, Debug)]
pub struct DigitalOcean {
    token: String,
}

/// One HTTP call, ready to be made.
#[derive(Clone, Debug, PartialEq, Eq)]
pub struct Call {
    pub verb: Verb,
    pub url: String,
    /// The value of the `Authorization` header.
    pub authorization: String,
    pub body: Option<Payload>,
    /// The form of the answer to a successful call.
    pub shape: Shape,
    /// The member of the answer's document under which the value stands.
    pub envelope: String,
}

/// What a `Call` holds.
pub struct CallView {
    pub verb: Verb,
    pub url: Seq<char>,
    pub authorization: Seq<char>,
    pub body: Option<Seq<(Seq<char>, ScalarView)>>,
    pub shape: Shape,
    pub envelope: Seq<char>,
}

impl View for Call {
    type V = CallView;

    open spec fn view(&self) -> CallView {
        CallView {
            verb: self.verb,
            url: self.url@,
            authorization: self.authorization@,
            body: body_view(self.body),
            shape: self.shape,
            envelope: self.envelope@,
        }
    }
}

/// How a call ended.
#[derive(Clone, Debug, PartialEq, Eq)]
pub enum Outcome {
    /// No answer came back; the text says why.
    Failed(String),
    /// An answer came back.
    Answered { status: u16, body: String },
}

/// What an `Outcome` holds.
pub enum OutcomeView {
    Failed(Seq<char>),
    Answered { status: u16, body: Seq<char> },
}

impl View for Outcome {
    type V = OutcomeView;

    open spec fn view(&self) -> OutcomeView {
        match *self {
            Outcome::Failed(m) => OutcomeView::Failed(m@),
            Outcome::Answered { status, body } => OutcomeView::Answered { status, body: body@ },
        }
    }
}

/// A successful answer, taken out of its document: the JSON text of each
/// record that it holds.
#[derive(Clone, Debug, PartialEq, Eq)]
pub enum Answer {
    /// The call was made for its effect.
    Nothing,
    /// One record.
    One(String),
    /// The records of a collection, in the document's order.
    Many(Vec<String>),
}

/// What an `Answer` holds.
pub enum AnswerView {
    Nothing,
    One(Seq<char>),
    Many(Seq<Seq<char>>),
}

/// The texts of `items`, in order.
pub open spec fn texts_view(items: Vec<String>) -> Seq<Seq<char>> {
    items@.map_values(|s: String| s@)
}

impl View for Answer {
    type V = AnswerView;

    open spec fn view(&self) -> AnswerView {
        match *self {
            Answer::Nothing => AnswerView::Nothing,
            Answer::One(record) => AnswerView::One(record@),
            Answer::Many(records) => AnswerView::Many(texts_view(records)),
        }
    }
}

/// The view of an opened answer.
pub open spec fn opened_view(r: Result<Answer, Error>) -> Result<AnswerView, ErrorView> {
    match r {
        Ok(answer) => Ok(answer@),
        Err(e) => Err(e@),
    }
}

/// The view of a list of texts that may be absent.
pub open spec fn items_view(items: Option<Vec<String>>) -> Option<Seq<Seq<char>>> {
    match items {
        Some(v) => Some(texts_view(v)),
        None => None,
    }
}

/// The view of a settled call.
pub open spec fn result_view(r: Result<String, Error>) -> Result<Seq<char>, ErrorView> {
    match r {
        Ok(body) => Ok(body@),
        Err(e) => Err(e@),
    }
}

/// The view of a text that may be absent.
pub open spec fn text_view(t: Option<String>) -> Option<Seq<char>> {
    match t {
        Some(s) => Some(s@),
        None => None,
    }
}

/// The `Authorization` header for `token`.
pub open spec fn bearer(token: Seq<char>) -> Seq<char> {
    "Bearer "@ + token
}

/// The form of the answer to a call under method `A` for a value `V`: a
/// deletion is answered with nothing, any other call with what `V` states.
pub open spec fn answer_shape<A: Method, V: HasResponse>() -> Shape {
    if A::verb_of() == Verb::Delete {
        Shape::Empty
    } else {
        V::shape_of()
    }
}

/// The call that a client with `token` makes for `request` under method `A`
/// for a value `V`.
pub open spec fn planned<A: Method, V: HasResponse>(
    token: Seq<char>,
    request: RequestView,
) -> CallView {
    CallView {
        verb: A::verb_of(),
        url: request.url,
        authorization: bearer(token),
        body: if A::sends_body_of() {
            request.body
        } else {
            None
        },
        shape: answer_shape::<A, V>(),
        envelope: V::envelope_of(),
    }
}

/// Whether `status` reports success.
pub open spec fn is_success(status: u16) -> bool {
    200 <= status && status < 300
}

/// The result of an answer with `status` and `body`, where `id` and
/// `message` are the texts found under those names in the body, if any.
pub open spec fn classified(
    status: u16,
    body: Seq<char>,
    id: Option<Seq<char>>,
    message: Option<Seq<char>>,
) -> Result<Seq<char>, ErrorView> {
    if is_success(status) {
        Ok(body)
    } else {
        match (id, message) {
            (Some(i), Some(m)) => Err(ErrorView::Api { status, id: i, message: m }),
            _ => Err(ErrorView::Status { status, body }),
        }
    }
}

/// The text that the JSON document `document` holds under `key`: `Some`
/// where the document parses as an object with a member `key` whose value is
/// a string.
pub uninterp spec fn json_member_text(document: Seq<char>, key: Seq<char>) -> Option<Seq<char>>;

/// The result of a call that ended in `outcome`.
pub open spec fn settled(outcome: OutcomeView) -> Result<Seq<char>, ErrorView> {
    match outcome {
        OutcomeView::Failed(m) => Err(ErrorView::Transport(m)),
        OutcomeView::Answered { status, body } => classified(
            status,
            body,
            json_member_text(body, "id"@),
            json_member_text(body, "message"@),
        ),
    }
}

/// An answer whose status does not report success is never a value: it
/// settles as an API fault that carries the status, with the provider's `id`
/// and `message` where the body holds both.
pub proof fn lemma_fault_is_never_a_value(status: u16, body: Seq<char>)
    requires
        !is_success(status),
    ensures
        settled(OutcomeView::Answered { status, body }) is Err,
        ({
            let id = json_member_text(body, "id"@);
            let message = json_member_text(body, "message"@);
            id is Some && message is Some ==> settled(OutcomeView::Answered { status, body })
                == Err::<Seq<char>, ErrorView>(
                ErrorView::Api { status, id: id.unwrap(), message: message.unwrap() },
            )
        }),
{
}

/// The JSON crate's `from_str`, `Value::get` and `Value::as_str`: parses
/// `document` and hands out the string found under `key`. Nothing is
/// claimed of the text but that it depends on the two arguments alone.
#[verifier::external_body]
fn member_text(document: &str, key: &str) -> (r: Option<String>)
    ensures
        text_view(r) == json_member_text(document@, key@),
{
    serde_json::from_str::<serde_json::Value>(document).ok()?.get(key)?.as_str().map(String::from)
}

/// The JSON text of the value that the JSON document `document` holds under
/// `key`: `Some` where the document parses as an object with a member `key`.
pub uninterp spec fn json_member(document: Seq<char>, key: Seq<char>) -> Option<Seq<char>>;

/// The JSON texts of the items of the JSON document `document`, in order:
/// `Some` where the document parses as an array.
pub uninterp spec fn json_items(document: Seq<char>) -> Option<Seq<Seq<char>>>;

/// The JSON crate's `from_str`, `Value::get` and `to_string`: parses
/// `document` and hands out, as JSON text, the value found under `key`.
/// Nothing is claimed of the text but that it depends on the two arguments
/// alone.
#[verifier::external_body]
fn member_json(document: &str, key: &str) -> (r: Option<String>)
    ensures
        text_view(r) == json_member(document@, key@),
{
    let value = serde_json::from_str::<serde_json::Value>(document).ok()?;
    serde_json::to_string(value.get(key)?).ok()
}

/// The JSON crate's `from_str`, `Value::as_array` and `Value::to_string`:
/// parses `document` and hands out its items, each as JSON text. Nothing is
/// claimed of the texts but that they depend on the argument alone.
#[verifier::external_body]
fn items_json(document: &str) -> (r: Option<Vec<String>>)
    ensures
        items_view(r) == json_items(document@),
{
    let value = serde_json::from_str::<serde_json::Value>(document).ok()?;
    Some(value.as_array()?.iter().map(|item| item.to_string()).collect())
}

/// What an answer of form `shape` comes to, where `member` is the text found
/// under `envelope` in the answer's document, if any, and `items` are that
/// text's items, if it is a list. An answer that lacks what its form asks
/// for is a serialization fault.
pub open spec fn unwrapped(
    shape: Shape,
    envelope: Seq<char>,
    member: Option<Seq<char>>,
    items: Option<Seq<Seq<char>>>,
) -> Result<AnswerView, ErrorView> {
    match shape {
        Shape::Empty => Ok(AnswerView::Nothing),
        Shape::Single => match member {
            Some(record) => Ok(AnswerView::One(record)),
            None => Err(ErrorView::Serialization("missing member: "@ + envelope)),
        },
        Shape::Collection => match (member, items) {
            (Some(_), Some(records)) => Ok(AnswerView::Many(records)),
            (Some(_), None) => Err(ErrorView::Serialization("not a list: "@ + envelope)),
            (None, _) => Err(ErrorView::Serialization("missing member: "@ + envelope)),
        },
    }
}

/// What the body `body` of a successful answer comes to for a call that
/// expects `shape` under `envelope`.
pub open spec fn opened(shape: Shape, envelope: Seq<char>, body: Seq<char>) -> Result<
    AnswerView,
    ErrorView,
> {
    unwrapped(
        shape,
        envelope,
        json_member(body, envelope),
        match json_member(body, envelope) {
            Some(member) => json_items(member),
            None => None,
        },
    )
}

/// Takes an answer of form `shape` out of its document: nothing, the one
/// record under `envelope`, or the records of the list under it.
pub fn unwrap_answer(
    shape: Shape,
    envelope: &str,
    member: Option<String>,
    items: Option<Vec<String>>,
) -> (r: Result<Answer, Error>)
    ensures
        opened_view(r) == unwrapped(shape, envelope@, text_view(member), items_view(items)),
{
    match shape {
        Shape::Empty => Ok(Answer::Nothing),
        Shape::Single => match member {
            Some(record) => Ok(Answer::One(record)),
            None => Err(Error::Serialization(String::from_str("missing member: ").concat(envelope))),
        },
        Shape::Collection => match member {
            Some(_) => match items {
                Some(records) => Ok(Answer::Many(records)),
                None => Err(
                    Error::Serialization(String::from_str("not a list: ").concat(envelope)),
                ),
            },
            None => Err(Error::Serialization(String::from_str("missing member: ").concat(envelope))),
        },
    }
}

impl Call {
    /// Takes the answer that this call expects out of `body`, the body of a
    /// successful answer.
    pub fn open(&self, body: &str) -> (r: Result<Answer, Error>)
        ensures
            opened_view(r) == opened(self.shape, self.envelope@, body@),
    {
        let envelope = self.envelope.as_str();
        match self.shape {
            Shape::Empty => unwrap_answer(Shape::Empty, envelope, None, None),
            Shape::Single => {
                let member = member_json(body, envelope);
                unwrap_answer(Shape::Single, envelope, member, None)
            },
            Shape::Collection => {
                let member = member_json(body, envelope);
                let items = match &member {
                    Some(text) => items_json(text.as_str()),
                    None => None,
                };
                unwrap_answer(Shape::Collection, envelope, member, items)
            },
        }
    }
}

/// Classifies an answer: a successful status gives the body back for
/// decoding; any other gives an API fault, with the provider's `id` and
/// `message` where both were found, else with the status and the body.
pub fn classify(status: u16, body: String, id: Option<String>, message: Option<String>) -> (r:
    Result<String, Error>)
    ensures
        result_view(r) == classified(status, body@, text_view(id), text_view(message)),
{
    if 200 <= status && status < 300 {
        return Ok(body);
    }
    match id {
        Some(i) => match message {
            Some(m) => Err(Error::Api { status, id: i, message: m }),
            None => Err(Error::Status { status, body }),
        },
        None => Err(Error::Status { status, body }),
    }
}

impl DigitalOcean {
    /// The token that the client was made with.
    pub closed spec fn token_view(&self) -> Seq<char> {
        self.token@
    }

    /// A client that makes its calls under `token`.
    pub fn new(token: String) -> (r: Result<DigitalOcean, Error>)
        ensures
            r matches Ok(client) && client.token_view() == token@,
    {
        Ok(DigitalOcean { token })
    }

    /// The token that the client was made with.
    pub fn token(&self) -> (r: &str)
        ensures
            r@ == self.token_view(),
    {
        self.token.as_str()
    }

    /// Turns a finished request into the call to make: the verb of its
    /// method tag, its URL, the token as bearer credential, and its body
    /// where the method sends one.
    pub fn execute<A: Method, V: HasResponse>(&self, request: Request<A, V>) -> (call: Call)
        ensures
            call@ == planned::<A, V>(self.token_view(), request@),
    {
        let verb = A::verb();
        let shape = if verb == Verb::Delete {
            Shape::Empty
        } else {
            V::shape()
        };
        let (url, body) = request.into_parts();
        let body = if A::sends_body() {
            body
        } else {
            None
        };
        Call {
            verb,
            url,
            authorization: String::from_str("Bearer ").concat(self.token.as_str()),
            body,
            shape,
            envelope: String::from_str(V::envelope()),
        }
    }

    /// Says what a call came to: a transport fault where no answer came
    /// back, else what `classify` makes of the answer.
    pub fn settle(&self, outcome: Outcome) -> (r: Result<String, Error>)
        ensures
            result_view(r) == settled(outcome@),
    {
        match outcome {
            Outcome::Failed(m) => Err(Error::Transport(m)),
            Outcome::Answered { status, body } => {
                if 200 <= status && status < 300 {
                    classify(status, body, None, None)
                } else {
                    let id = member_text(body.as_str(), "id");
                    let message = member_text(body.as_str(), "message");
                    classify(status, body, id, message)
                }
            },
        }
    }
}

} // verus!
