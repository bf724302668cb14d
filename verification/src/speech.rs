//! A speech request, and what it asks of the synthesizer and of the encoder.
use vstd::prelude::*;
use crate::app_state::{
    default_language, default_voice_name, request_language, request_model,
    request_response_format, request_total_step, AppState, DEFAULT_TOTAL_STEP,
};
use crate::error::{error_message, error_status, OpenAIError};
use crate::models::supertonic_id;
use crate::response_format::{format_named, lowercase, unsupported_prefix, unsupported_suffix, wav_name, ResponseFormat};

verus! {

/// The fields of a speech request other than the floating point ones
/// (speed and silence duration).
pub struct SpeechRequest {
    /// The text to speak.
    pub input: String,
    /// The model; must be "supertonic".
    pub model: String,
    /// The voice; "M1" when absent.
    pub voice: Option<String>,
    /// Instructions for the voice; the model does not support them.
    pub instructions: Option<String>,
    /// "wav" or "opus", in any letter case; "wav" when absent.
    pub response_format: Option<String>,
    /// The format to stream in; streaming is not supported.
    pub stream_format: Option<String>,
    /// The number of denoising steps; 10 when absent.
    pub total_step: Option<u8>,
    /// The language to speak; "en" when absent.
    pub language: Option<String>,
}

/// What the synthesizer is asked to do for a request.
pub struct InferencePlan {
    /// The style file of the voice.
    pub voice_file: String,
    pub total_step: usize,
    pub language: String,
}

/// An optional string by its characters.
pub open spec fn opt_chars(o: Option<String>) -> Option<Seq<char>> {
    match o {
        Some(s) => Some(s@),
        None => None,
    }
}

/// Two requests ask the same, whatever their instructions and stream formats.
pub open spec fn same_request(a: SpeechRequest, b: SpeechRequest) -> bool {
    &&& a.input@ == b.input@
    &&& a.model@ == b.model@
    &&& opt_chars(a.voice) == opt_chars(b.voice)
    &&& opt_chars(a.response_format) == opt_chars(b.response_format)
    &&& a.total_step == b.total_step
    &&& opt_chars(a.language) == opt_chars(b.language)
}

/// An error by the status and message it is answered with.
pub open spec fn answer(e: OpenAIError) -> (u16, Seq<char>) {
    (error_status(e), error_message(e))
}

/// The voice a request names, "M1" when none.
pub open spec fn requested_voice(req: SpeechRequest) -> Seq<char> {
    match opt_chars(req.voice) {
        Some(v) => v,
        None => default_voice_name(),
    }
}

/// The outcome of planning the inference of a request against a voice table:
/// the voice's style file, the steps and the language, or the answer to the
/// error (an unknown model first, then an unknown voice).
pub open spec fn inference_outcome(table: Map<Seq<char>, Seq<char>>, req: SpeechRequest) -> Result<
    (Seq<char>, int, Seq<char>),
    (u16, Seq<char>),
> {
    if req.model@ != supertonic_id() {
        Err(answer(OpenAIError::ModelNotFound()))
    } else if !table.contains_key(requested_voice(req)) {
        Err((404, requested_voice(req)))
    } else {
        Ok(
            (
                table[requested_voice(req)],
                match req.total_step {
                    Some(t) => t as int,
                    None => DEFAULT_TOTAL_STEP as int,
                },
                match opt_chars(req.language) {
                    Some(l) => l,
                    None => default_language(),
                },
            ),
        )
    }
}

/// The outcome of choosing the response format of a request: the format, or
/// the answer to the error.
pub open spec fn format_outcome(req: SpeechRequest) -> Result<ResponseFormat, (u16, Seq<char>)> {
    let requested = match opt_chars(req.response_format) {
        Some(f) => f,
        None => wav_name(),
    };
    match format_named(lowercase(requested)) {
        Some(f) => Ok(f),
        None => Err((500, unsupported_prefix() + requested + unsupported_suffix())),
    }
}

fn clone_opt(o: &Option<String>) -> (r: Option<String>)
    ensures
        opt_chars(r) == opt_chars(*o),
{
    match o {
        Some(s) => Some(s.clone()),
        None => None,
    }
}

impl AppState {
    /// Plans the synthesis of a request: its model must be "supertonic" and
    /// its voice must exist.
    pub fn plan_inference(&self, req: &SpeechRequest) -> (r: Result<InferencePlan, OpenAIError>)
        ensures
            match r {
                Ok(p) => inference_outcome(self.voice_table(), *req) == Ok::<
                    (Seq<char>, int, Seq<char>),
                    (u16, Seq<char>),
                >((p.voice_file@, p.total_step as int, p.language@)),
                Err(e) => inference_outcome(self.voice_table(), *req) == Err::<
                    (Seq<char>, int, Seq<char>),
                    (u16, Seq<char>),
                >(answer(e)) && (req.model@ != supertonic_id() ==> e
                    == OpenAIError::ModelNotFound()) && (req.model@ == supertonic_id() ==> (
                e matches OpenAIError::VoiceNotFound(n) && n@ == requested_voice(*req))),
            },
            r is Ok <==> req.model@ == seq!['s', 'u', 'p', 'e', 'r', 't', 'o', 'n', 'i', 'c']
                && self.voice_table().contains_key(
                match opt_chars(req.voice) {
                    Some(v) => v,
                    None => seq!['M', '1'],
                },
            ),
            r matches Ok(p) ==> p.voice_file@ == self.voice_table()[match opt_chars(req.voice) {
                Some(v) => v,
                None => seq!['M', '1'],
            }] && p.total_step == (match req.total_step {
                Some(t) => t as usize,
                None => 10usize,
            }) && p.language@ == (match opt_chars(req.language) {
                Some(l) => l,
                None => seq!['e', 'n'],
            }),
    {
        if let Err(e) = request_model(req.model.as_str()) {
            return Err(e);
        }
        let voice = match self.request_voice(clone_opt(&req.voice)) {
            Ok(v) => v,
            Err(e) => return Err(e),
        };
        let voice_file = voice.file_path().clone();
        let total_step = request_total_step(req.total_step);
        let language = request_language(clone_opt(&req.language));
        Ok(InferencePlan { voice_file, total_step, language })
    }
}

/// The response format of a request.
pub fn plan_response_format(req: &SpeechRequest) -> (r: Result<ResponseFormat, OpenAIError>)
    ensures
        match r {
            Ok(f) => format_outcome(*req) == Ok::<ResponseFormat, (u16, Seq<char>)>(f),
            Err(e) => format_outcome(*req) == Err::<ResponseFormat, (u16, Seq<char>)>(answer(e))
                && e is Other,
        },
        req.response_format is None ==> r == Ok::<ResponseFormat, OpenAIError>(ResponseFormat::Wav),
        req.response_format matches Some(name) ==> match r {
            Ok(f) => format_named(lowercase(name@)) == Some(f),
            Err(_) => format_named(lowercase(name@)) is None,
        },
{
    request_response_format(clone_opt(&req.response_format))
}

/// Planning succeeds exactly for the model "supertonic" and a voice of the
/// table (the named one, or "M1"); the plan uses that voice's style file,
/// the given number of steps (10 when none is given) and the given language
/// ("en" when none is given). An unknown model is refused before an unknown
/// voice.
pub proof fn lemma_inference_outcome(table: Map<Seq<char>, Seq<char>>, req: SpeechRequest)
    ensures
        ({
            let name = match opt_chars(req.voice) {
                Some(v) => v,
                None => seq!['M', '1'],
            };
            let out = inference_outcome(table, req);
            &&& out is Ok <==> req.model@ == seq![
                's',
                'u',
                'p',
                'e',
                'r',
                't',
                'o',
                'n',
                'i',
                'c',
            ] && table.contains_key(name)
            &&& out matches Ok(p) ==> p.0 == table[name] && p.1 == (match req.total_step {
                Some(t) => t as int,
                None => 10int,
            }) && p.2 == (match opt_chars(req.language) {
                Some(l) => l,
                None => seq!['e', 'n'],
            })
            &&& req.model@ != seq!['s', 'u', 'p', 'e', 'r', 't', 'o', 'n', 'i', 'c'] ==> out
                == Err::<(Seq<char>, int, Seq<char>), (u16, Seq<char>)>(
                (404u16, seq!['m', 'o', 'd', 'e', 'l', ' ', 'n', 'o', 't', ' ', 'f', 'o', 'u', 'n', 'd']),
            )
            &&& req.model@ == seq!['s', 'u', 'p', 'e', 'r', 't', 'o', 'n', 'i', 'c']
                && !table.contains_key(name) ==> out == Err::<
                (Seq<char>, int, Seq<char>),
                (u16, Seq<char>),
            >((404u16, name))
        }),
{
}

/// A named response format is chosen by what its lowercase stands for:
/// "wav" gives WAVE, "opus" gives Ogg Opus, anything else is refused with
/// status 500 and a message naming it.
pub proof fn lemma_format_outcome(req: SpeechRequest)
    ensures
        req.response_format matches Some(name) ==> ({
            let lower = lowercase(name@);
            &&& (format_outcome(req) == Ok::<ResponseFormat, (u16, Seq<char>)>(ResponseFormat::Wav)
                <==> lower == seq!['w', 'a', 'v'])
            &&& (format_outcome(req) == Ok::<ResponseFormat, (u16, Seq<char>)>(
                ResponseFormat::OpusOgg,
            ) <==> lower == seq!['o', 'p', 'u', 's'])
            &&& (format_outcome(req) is Err <==> lower != seq!['w', 'a', 'v'] && lower != seq![
                'o',
                'p',
                'u',
                's',
            ])
            &&& format_outcome(req) matches Err(a) ==> a.0 == 500
        }),
{
}

/// The instructions and the stream format of a request have no effect: two
/// requests that differ only in them are planned alike.
pub proof fn lemma_unsupported_fields_ignored(
    table: Map<Seq<char>, Seq<char>>,
    a: SpeechRequest,
    b: SpeechRequest,
)
    requires
        same_request(a, b),
    ensures
        inference_outcome(table, a) == inference_outcome(table, b),
        format_outcome(a) == format_outcome(b),
{
}

} // verus!
