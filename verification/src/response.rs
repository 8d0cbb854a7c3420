//! The service's reply: a JSON object that holds either the URL of the new paste or
//! the reason why there is none.

use vstd::prelude::*;
use vstd::string::*;
use crate::text::option_text;

verus! {

/// What the service answered.
#[derive(Debug)]
pub enum Response {
    /// The paste was made and can be read at `url`.
    Paste { url: String },
    /// The service refused the paste and says why.
    Error { error_msg: String },
}

/// The mathematical content of a `Response`.
pub enum Reply {
    Paste { url: Seq<char> },
    Error { error_msg: Seq<char> },
}

impl View for Response {
    type V = Reply;

    open spec fn view(&self) -> Reply {
        match self {
            Response::Paste { url } => Reply::Paste { url: url@ },
            Response::Error { error_msg } => Reply::Error { error_msg: error_msg@ },
        }
    }
}

/// Why a reply gave no URL.
#[derive(Debug)]
pub enum ResponseError {
    /// The reply has neither of the two known shapes.
    MalformedResponse,
    /// The service refused the paste; `message` is its own account.
    RemoteFailure { message: String },
}

/// The mathematical content of a `ResponseError`.
pub enum ResponseFailure {
    MalformedResponse,
    RemoteFailure { message: Seq<char> },
}

impl View for ResponseError {
    type V = ResponseFailure;

    open spec fn view(&self) -> ResponseFailure {
        match self {
            ResponseError::MalformedResponse => ResponseFailure::MalformedResponse,
            ResponseError::RemoteFailure { message } => ResponseFailure::RemoteFailure {
                message: message@,
            },
        }
    }
}

impl ResponseError {
    /// The text that tells a person what went wrong: the service's message as it
    /// came, or that the reply could not be read.
    pub open spec fn message_text(failure: ResponseFailure) -> Seq<char> {
        match failure {
            ResponseFailure::MalformedResponse => "Could not parse JSON response"@,
            ResponseFailure::RemoteFailure { message } => message,
        }
    }

    /// Describes the error.
    pub fn message(&self) -> (r: String)
        ensures
            r@ == Self::message_text(self@),
    {
        match self {
            ResponseError::MalformedResponse => String::from_str("Could not parse JSON response"),
            ResponseError::RemoteFailure { message } => message.clone(),
        }
    }
}

impl Response {
    /// The URL of the paste, or the service's message as an error.
    pub fn into_result(self) -> (r: Result<String, ResponseError>)
        ensures
            match self@ {
                Reply::Paste { url } => r is Ok && r->Ok_0@ == url,
                Reply::Error { error_msg } => r is Err && r->Err_0@ == (
                ResponseFailure::RemoteFailure { message: error_msg }),
            },
    {
        match self {
            Response::Paste { url } => Ok(url),
            Response::Error { error_msg } => Err(ResponseError::RemoteFailure { message: error_msg }),
        }
    }
}

/// A parsed JSON document, as `serde_json` holds it.
#[verifier::external_type_specification]
#[verifier::external_body]
pub struct ExJsonValue(serde_json::Value);

/// The string members that a parsed document holds: where the document is an
/// object, its members whose values are strings, by key; nothing where it is
/// anything else.
pub uninterp spec fn string_members(document: serde_json::Value) -> Map<Seq<char>, Seq<char>>;

/// The string members of the document that `bytes` are the JSON text of; `None`
/// where they are not the text of one JSON value.
pub uninterp spec fn json_string_members(bytes: Seq<u8>) -> Option<Map<Seq<char>, Seq<char>>>;

/// Parses a JSON document with `serde_json::from_slice`. Nothing is proved of the
/// JSON grammar: the contract only gives the outcome its name.
#[verifier::external_body]
fn parse_json(bytes: &[u8]) -> (r: Option<serde_json::Value>)
    ensures
        match r {
            Some(document) => json_string_members(bytes@) == Some(string_members(document)),
            None => json_string_members(bytes@) is None,
        },
{
    serde_json::from_slice(bytes).ok()
}

/// Looks a member up with `serde_json::Value::get`, which finds members of objects
/// only, and hands its text out if it is a string.
#[verifier::external_body]
fn string_member(document: &serde_json::Value, key: &str) -> (r: Option<String>)
    ensures
        match r {
            Some(text) => string_members(*document).contains_key(key@) && string_members(
                *document,
            )[key@] == text@,
            None => !string_members(*document).contains_key(key@),
        },
{
    match document.get(key) {
        Some(serde_json::Value::String(text)) => Some(text.clone()),
        _ => None,
    }
}

/// The string that is held under `key`, if there is a document and it holds one.
pub open spec fn member_text(members: Option<Map<Seq<char>, Seq<char>>>, key: Seq<char>) -> Option<
    Seq<char>,
> {
    match members {
        Some(members) if members.contains_key(key) => Some(members[key]),
        _ => None,
    }
}

/// The reply that an object with these two string members stands for: the success
/// shape is tried first, then the failure shape.
pub open spec fn reply_of_members(url: Option<Seq<char>>, error_msg: Option<Seq<char>>) -> Result<
    Reply,
    ResponseFailure,
> {
    match (url, error_msg) {
        (Some(url), _) => Ok(Reply::Paste { url }),
        (None, Some(error_msg)) => Ok(Reply::Error { error_msg }),
        (None, None) => Err(ResponseFailure::MalformedResponse),
    }
}

/// The reply that a JSON document stands for.
pub open spec fn reply_of_document(document: Seq<u8>) -> Result<Reply, ResponseFailure> {
    let members = json_string_members(document);
    reply_of_members(member_text(members, "url"@), member_text(members, "error_msg"@))
}

/// Decides what a reply means from its `url` and `error_msg` members, each given
/// if the reply holds it as a string.
pub fn classify_reply(url: Option<String>, error_msg: Option<String>) -> (r: Result<
    Response,
    ResponseError,
>)
    ensures
        match r {
            Ok(response) => reply_of_members(option_text(url), option_text(error_msg)) == Ok::<
                Reply,
                ResponseFailure,
            >(response@),
            Err(e) => reply_of_members(option_text(url), option_text(error_msg)) == Err::<
                Reply,
                ResponseFailure,
            >(e@),
        },
{
    match url {
        Some(url) => Ok(Response::Paste { url }),
        None => match error_msg {
            Some(error_msg) => Ok(Response::Error { error_msg }),
            None => Err(ResponseError::MalformedResponse),
        },
    }
}

/// Reads the body of the service's reply.
///
/// The body is a JSON object. With a string member `url` it is a success, whatever
/// else it holds; otherwise, with a string member `error_msg`, it is the service's
/// refusal; otherwise it is malformed. The HTTP status plays no part.
pub fn interpret_response(body: &[u8]) -> (r: Result<Response, ResponseError>)
    ensures
        match r {
            Ok(response) => reply_of_document(body@) == Ok::<Reply, ResponseFailure>(response@),
            Err(e) => reply_of_document(body@) == Err::<Reply, ResponseFailure>(e@),
        },
{
    match parse_json(body) {
        Some(document) => {
            let url = string_member(&document, "url");
            let error_msg = string_member(&document, "error_msg");
            classify_reply(url, error_msg)
        },
        None => classify_reply(None, None),
    }
}

} // verus!
