//! Errors of the API and how they are answered.
use vstd::prelude::*;

verus! {

/// An error of the OpenAI-compatible API.
#[derive(Debug)]
pub enum OpenAIError {
    /// No voice has the requested name (the name is carried).
    VoiceNotFound(String),
    /// No model has the requested id.
    ModelNotFound(),
    /// An input/output failure, with its message.
    Io(String),
    /// Any other failure, with its message.
    Other(String),
}

/// The answer to a failed request: an HTTP status and a message for the
/// JSON body `{"message": ...}`.
#[derive(Debug)]
pub struct ErrorResponse {
    pub status: u16,
    pub message: String,
}

/// "model not found"
pub open spec fn model_not_found_message() -> Seq<char> {
    seq!['m', 'o', 'd', 'e', 'l', ' ', 'n', 'o', 't', ' ', 'f', 'o', 'u', 'n', 'd']
}

/// The status with which an error is answered: 404 for an unknown voice or
/// model, 500 for everything else.
pub open spec fn error_status(e: OpenAIError) -> u16 {
    match e {
        OpenAIError::VoiceNotFound(_) => 404,
        OpenAIError::ModelNotFound() => 404,
        OpenAIError::Io(_) => 500,
        OpenAIError::Other(_) => 500,
    }
}

/// The message with which an error is answered.
pub open spec fn error_message(e: OpenAIError) -> Seq<char> {
    match e {
        OpenAIError::VoiceNotFound(s) => s@,
        OpenAIError::ModelNotFound() => model_not_found_message(),
        OpenAIError::Io(s) => s@,
        OpenAIError::Other(s) => s@,
    }
}

/// Requests for an unknown voice or model are answered 404, every other
/// failure 500.
pub proof fn lemma_error_status(e: OpenAIError)
    ensures
        error_status(e) == 404 <==> (e is VoiceNotFound || e is ModelNotFound),
        error_status(e) == 404 || error_status(e) == 500,
{
}

impl OpenAIError {
    /// The status and message with which this error is answered.
    pub fn into_response(self) -> (r: ErrorResponse)
        ensures
            r.status == error_status(self),
            r.message@ == error_message(self),
    {
        match self {
            OpenAIError::VoiceNotFound(e) => ErrorResponse { status: 404, message: e },
            OpenAIError::ModelNotFound() => {
                let message = "model not found".to_owned();
                proof {
                    reveal_strlit("model not found");
                }
                assert(message@ =~= model_not_found_message());
                ErrorResponse { status: 404, message }
            },
            OpenAIError::Io(e) => ErrorResponse { status: 500, message: e },
            OpenAIError::Other(e) => ErrorResponse { status: 500, message: e },
        }
    }
}

/// A JSON response body.
pub struct AppJson<T>(pub T);

impl<T> AppJson<T> {
    pub fn new(inner: T) -> (r: AppJson<T>)
        ensures
            r.0 == inner,
    {
        AppJson(inner)
    }
}

} // verus!
