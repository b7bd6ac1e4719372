//! Reading the text-generation service's reply into a commit message.
use vstd::prelude::*;
use crate::text::opt_text;

verus! {

#[verifier::external_type_specification]
#[verifier::external_body]
pub struct ExJsonError(serde_json::Error);

/// A name for what serde_json finds in a JSON text: `None` where it is not
/// JSON, else the string that the JSON pointer `pointer` addresses, if there
/// is one.
pub uninterp spec fn json_str_at(text: Seq<char>, pointer: Seq<char>) -> Option<Option<Seq<char>>>;

/// Relies on `serde_json::from_str` into a `serde_json::Value`, on
/// `Value::pointer` and on `Value::as_str`.
#[verifier::external_body]
fn json_str_field(text: &str, pointer: &str) -> (r: Result<Option<String>, serde_json::Error>)
    ensures
        r is Ok <==> json_str_at(text@, pointer@) is Some,
        r matches Ok(c) ==> json_str_at(text@, pointer@) == Some(opt_text(c)),
{
    serde_json::from_str::<serde_json::Value>(text).map(
        |v| v.pointer(pointer).and_then(|c| c.as_str()).map(String::from),
    )
}

/// Where a reply holds the generated message: `choices[0].message.content`.
pub open spec fn content_pointer() -> Seq<char> {
    "/choices/0/message/content"@
}

/// Why no commit message was generated.
#[derive(Debug)]
pub enum GenerateError {
    /// The request did not get a response.
    Network(String),
    /// The service answered with a status other than success; its body.
    HttpStatus { status: u16, body: String },
    /// The reply body is not JSON.
    BadResponse(String),
}

/// The message that stands in when the reply holds no content string.
pub open spec fn placeholder_message() -> Seq<char> {
    "无法获取生成的提交信息"@
}

/// A success status (2xx).
pub open spec fn status_ok(status: u16) -> bool {
    200 <= status <= 299
}

/// What a reply with `status` and `body` yields, where `parsed` is what the
/// body holds (`None`: not JSON; else the content string, if any).
pub open spec fn reply_outcome(
    status: u16,
    body: Seq<char>,
    parsed: Option<Option<Seq<char>>>,
    r: Result<String, GenerateError>,
) -> bool {
    if !status_ok(status) {
        match r {
            Err(GenerateError::HttpStatus { status: s, body: b }) => s == status && b@ == body,
            _ => false,
        }
    } else {
        match (parsed, r) {
            (None, Err(GenerateError::BadResponse(_))) => true,
            (Some(None), Ok(m)) => m@ == placeholder_message(),
            (Some(Some(c)), Ok(m)) => m@ == c,
            _ => false,
        }
    }
}

/// The message that a reply yields, given what its body holds: `Ok(content)`
/// where it is JSON (`None` when there is no content string), `Err(text)`
/// where it is not.
pub fn message_from_reply(status: u16, body: &str, parsed: Result<Option<String>, String>) -> (r:
    Result<String, GenerateError>)
    ensures
        reply_outcome(
            status,
            body@,
            match parsed {
                Ok(c) => Some(opt_text(c)),
                Err(_) => None,
            },
            r,
        ),
        status_ok(status) ==> (parsed matches Err(e) ==> r == Err::<String, GenerateError>(
            GenerateError::BadResponse(e),
        )),
{
    if status < 200 || status > 299 {
        return Err(GenerateError::HttpStatus { status, body: String::from_str(body) });
    }
    match parsed {
        Err(e) => Err(GenerateError::BadResponse(e)),
        Ok(None) => Ok(String::from_str("无法获取生成的提交信息")),
        Ok(Some(c)) => Ok(c),
    }
}

/// The message that a reply with `status` and `body` yields. The body is
/// read only when the status is a success.
pub fn interpret_reply(status: u16, body: &str) -> (r: Result<String, GenerateError>)
    ensures
        reply_outcome(status, body@, json_str_at(body@, content_pointer()), r),
{
    if status < 200 || status > 299 {
        return message_from_reply(status, body, Ok(None));
    }
    let parsed = match json_str_field(body, "/choices/0/message/content") {
        Ok(c) => Ok(c),
        Err(e) => Err(e.to_string()),
    };
    message_from_reply(status, body, parsed)
}

} // verus!
