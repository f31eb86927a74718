use vstd::prelude::*;

use crate::dispatch::{enter, initial, submit, Action, Phase, Session};
use crate::error::{error_message, InfraError};
use crate::language::language_of;
use crate::strategy::strategy_of;
use crate::text::joined;
use vstd::utf8::encode_utf8;

verus! {

/// The body of a request to run code.
pub struct CompilerRequest {
    pub lang: String,
    pub content: String,
    /// Input for the program; empty when the request leaves it out.
    pub stdin: String,
}

/// The body of a successful answer: what the program printed.
pub struct CompilerResponse {
    pub result: String,
}

impl CompilerRequest {
    pub fn new(lang: String, content: String, stdin: String) -> (r: CompilerRequest)
        ensures
            r.lang == lang,
            r.content == content,
            r.stdin == stdin,
    {
        CompilerRequest { lang, content, stdin }
    }
}

impl CompilerResponse {
    pub fn new(result: String) -> (r: CompilerResponse)
        ensures
            r.result == result,
    {
        CompilerResponse { result }
    }
}

/// A failed request, as the client sees it.
pub enum ApiError {
    NotFound(String),
    BadRequest(String),
    ValidationError(String),
    NotAcceptible(String),
    InternalServerError(InfraError),
}

/// The HTTP status of a failed request.
pub open spec fn status_of(e: &ApiError) -> u16 {
    match e {
        ApiError::NotFound(_) => 404,
        ApiError::BadRequest(_) => 400,
        ApiError::ValidationError(_) => 400,
        ApiError::NotAcceptible(_) => 406,
        ApiError::InternalServerError(_) => 500,
    }
}

/// The message in the body of a failed request.
pub open spec fn api_message(e: &ApiError) -> Seq<char> {
    match e {
        ApiError::NotFound(m) => "Not found: "@ + m@,
        ApiError::BadRequest(m) => "Bad request: "@ + m@,
        ApiError::ValidationError(m) => "Invalid input: "@ + m@,
        ApiError::NotAcceptible(m) => "Not Acceptable: "@ + m@,
        ApiError::InternalServerError(inner) => "Internal server error: "@ + error_message(inner@),
    }
}

impl ApiError {
    pub fn status(&self) -> (r: u16)
        ensures
            r == status_of(self),
    {
        match self {
            ApiError::NotFound(_) => 404,
            ApiError::BadRequest(_) => 400,
            ApiError::ValidationError(_) => 400,
            ApiError::NotAcceptible(_) => 406,
            ApiError::InternalServerError(_) => 500,
        }
    }

    pub fn message(&self) -> (r: String)
        ensures
            r@ == api_message(self),
    {
        match self {
            ApiError::NotFound(m) => joined("Not found: ", m.as_str()),
            ApiError::BadRequest(m) => joined("Bad request: ", m.as_str()),
            ApiError::ValidationError(m) => joined("Invalid input: ", m.as_str()),
            ApiError::NotAcceptible(m) => joined("Not Acceptable: ", m.as_str()),
            ApiError::InternalServerError(inner) => {
                let text = inner.message();
                joined("Internal server error: ", text.as_str())
            },
        }
    }

    /// How a dispatcher error reaches the client: an unsupported language
    /// is the client's mistake, anything else the server's.
    pub fn from_infra(e: InfraError) -> (r: ApiError)
        ensures
            status_of(&r) == (if e@ is UnsupportedLanguage {
                400u16
            } else {
                500u16
            }),
            api_message(&r) == (if e@ is UnsupportedLanguage {
                "Invalid input: "@ + error_message(e@)
            } else {
                "Internal server error: "@ + error_message(e@)
            }),
    {
        match e {
            InfraError::UnsupportedLanguage(_) => ApiError::ValidationError(e.message()),
            _ => ApiError::InternalServerError(e),
        }
    }
}

/// Starts the work for a request: the submission and its first action, or
/// the client error for a language outside the supported set, before any
/// action.
pub fn accept(req: &CompilerRequest) -> (r: Result<(Session, Action), ApiError>)
    ensures
        r is Err <==> language_of(req.lang@) is None,
        r matches Err(e) ==> status_of(&e) == 400 && api_message(&e) == "Invalid input: "@
            + req.lang@ + " language is not supported"@,
        r matches Ok(p) ==> (p.0@, p.1@) == enter(
            initial(
                strategy_of(language_of(req.lang@)->0),
                encode_utf8(req.content@),
                encode_utf8(req.stdin@),
            ),
            Phase::FindCompiler,
        ),
{
    match submit(req.lang.as_str(), req.content.as_str(), req.stdin.as_str()) {
        Ok(p) => Ok(p),
        Err(e) => Err(ApiError::from_infra(e)),
    }
}

/// The answer to a request whose submission finished with `outcome`.
pub fn respond(outcome: Result<String, InfraError>) -> (r: Result<CompilerResponse, ApiError>)
    ensures
        r is Ok <==> outcome is Ok,
        r matches Ok(resp) ==> resp.result == outcome->Ok_0,
        r matches Err(e) ==> status_of(&e) == (if outcome->Err_0@ is UnsupportedLanguage {
            400u16
        } else {
            500u16
        }),
        r matches Err(e) ==> api_message(&e) == (if outcome->Err_0@ is UnsupportedLanguage {
            "Invalid input: "@ + error_message(outcome->Err_0@)
        } else {
            "Internal server error: "@ + error_message(outcome->Err_0@)
        }),
{
    match outcome {
        Ok(result) => Ok(CompilerResponse::new(result)),
        Err(e) => Err(ApiError::from_infra(e)),
    }
}

} // verus!
