//! The server's state and how a speech request is resolved against it.
use vstd::prelude::*;
use crate::error::OpenAIError;
use crate::models::supertonic_id;
use crate::response_format::{ascii_lowercase, format_named, is_ascii_text, lemma_format_names_lowercase, lowercase, unsupported_prefix, unsupported_suffix, wav_name, ResponseFormat};
use crate::voice::{lazy_init_voices, voices_from_files, Voice, Voices};

verus! {

/// The state shared by all requests: the table of voices.
pub struct AppState {
    voices: Voices,
}

/// "M1", the voice used when a request names none.
pub open spec fn default_voice_name() -> Seq<char> {
    seq!['M', '1']
}

/// The number of denoising steps used when a request gives none.
pub const DEFAULT_TOTAL_STEP: u8 = 10;

impl AppState {
    #[verifier::type_invariant]
    spec fn inv(self) -> bool {
        self.voices.wf()
    }

    /// The voices, each name mapped to the path of its style file.
    pub closed spec fn voice_table(self) -> Map<Seq<char>, Seq<char>> {
        self.voices@
    }

    /// The state for the assets directory `assets_path` whose voice styles
    /// directory holds the entries `voice_files`.
    pub fn new(assets_path: &str, voice_files: &Vec<String>) -> (s: AppState)
        ensures
            s.voice_table() == voices_from_files(
                assets_path@,
                voice_files@.map_values(|f: String| f@),
            ),
    {
        AppState { voices: lazy_init_voices(assets_path, voice_files) }
    }

    /// The voice with the given name.
    pub fn get_voice(&self, name: &str) -> (r: Option<&Voice>)
        ensures
            match r {
                Some(v) => self.voice_table().contains_key(name@) && self.voice_table()[name@]
                    == v.path(),
                None => !self.voice_table().contains_key(name@),
            },
    {
        proof {
            use_type_invariant(self);
        }
        let key = name.to_owned();
        self.voices.get(&key)
    }

    /// The names of all voices, each once.
    pub fn list_voice_names(&self) -> (names: Vec<String>)
        ensures
            names@.map_values(|s: String| s@).no_duplicates(),
            names@.map_values(|s: String| s@).to_set() == self.voice_table().dom(),
    {
        proof {
            use_type_invariant(self);
            self.voices.lemma_names();
        }
        self.voices.name_list()
    }

    /// The voice a speech request asks for: the named one, "M1" when none is
    /// named; `VoiceNotFound` with the name when there is no such voice.
    pub fn request_voice(&self, voice: Option<String>) -> (r: Result<&Voice, OpenAIError>)
        ensures
            ({
                let name = match voice {
                    Some(v) => v@,
                    None => default_voice_name(),
                };
                match r {
                    Ok(v) => self.voice_table().contains_key(name) && self.voice_table()[name]
                        == v.path(),
                    Err(e) => !self.voice_table().contains_key(name) && (e matches OpenAIError::VoiceNotFound(n)
                        && n@ == name),
                }
            }),
    {
        let name = match voice {
            Some(v) => v,
            None => {
                proof {
                    reveal_strlit("M1");
                }
                let d = "M1".to_owned();
                assert(d@ =~= default_voice_name());
                d
            },
        };
        match self.get_voice(name.as_str()) {
            Some(v) => Ok(v),
            None => Err(OpenAIError::VoiceNotFound(name)),
        }
    }
}

/// The model of a speech request must be "supertonic"; any other is
/// `ModelNotFound`.
pub fn request_model(model: &str) -> (r: Result<(), OpenAIError>)
    ensures
        r is Ok <==> model@ == supertonic_id(),
        r matches Err(e) ==> e == OpenAIError::ModelNotFound(),
{
    let id = "supertonic".to_owned();
    proof {
        reveal_strlit("supertonic");
    }
    assert(id@ =~= supertonic_id());
    if model.to_owned() == id {
        Ok(())
    } else {
        Err(OpenAIError::ModelNotFound())
    }
}

/// "en", the language used when a request names none.
pub open spec fn default_language() -> Seq<char> {
    seq!['e', 'n']
}

/// The language of a request: the given one, "en" when none.
pub fn request_language(language: Option<String>) -> (l: String)
    ensures
        l@ == match language {
            Some(s) => s@,
            None => default_language(),
        },
{
    match language {
        Some(s) => s,
        None => {
            proof {
                reveal_strlit("en");
            }
            let d = "en".to_owned();
            assert(d@ =~= default_language());
            d
        },
    }
}

/// The number of denoising steps of a request: the given one, 10 when none.
pub fn request_total_step(total_step: Option<u8>) -> (n: usize)
    ensures
        n == match total_step {
            Some(t) => t,
            None => DEFAULT_TOTAL_STEP,
        },
{
    match total_step {
        Some(t) => t as usize,
        None => DEFAULT_TOTAL_STEP as usize,
    }
}

/// The response format of a request: the given one, "wav" when none; an
/// unsupported one is an `Other` error whose message names it.
pub fn request_response_format(response_format: Option<String>) -> (r: Result<ResponseFormat, OpenAIError>)
    ensures
        ({
            let requested = match response_format {
                Some(f) => f@,
                None => wav_name(),
            };
            match r {
                Ok(f) => format_named(lowercase(requested)) == Some(f),
                Err(e) => format_named(lowercase(requested)) is None && (e matches OpenAIError::Other(m)
                    && m@ == unsupported_prefix() + requested + unsupported_suffix()),
            }
        }),
        response_format is None ==> r == Ok::<ResponseFormat, OpenAIError>(ResponseFormat::Wav),
        response_format matches Some(f) ==> (is_ascii_text(f@) ==> (r is Ok <==> format_named(
            ascii_lowercase(f@),
        ) is Some)),
{
    proof {
        lemma_format_names_lowercase();
    }
    let requested = match response_format {
        Some(f) => f,
        None => {
            proof {
                reveal_strlit("wav");
            }
            let d = "wav".to_owned();
            assert(d@ =~= wav_name());
            d
        },
    };
    match ResponseFormat::try_from(requested) {
        Ok(f) => Ok(f),
        Err(e) => Err(OpenAIError::Other(e.message())),
    }
}

/// The number of samples of the synthesized audio that are sent: those the
/// spoken duration covers, at most all of them.
pub fn trimmed_audio_len(spoken_len: usize, available: usize) -> (n: usize)
    ensures
        n == if spoken_len < available {
            spoken_len
        } else {
            available
        },
{
    if spoken_len < available {
        spoken_len
    } else {
        available
    }
}

} // verus!
