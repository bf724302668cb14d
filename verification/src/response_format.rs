//! The audio formats in which speech can be returned.
use vstd::prelude::*;

verus! {

/// The format of the audio in a speech response.
#[derive(Debug, Clone, Copy, PartialEq, Eq, Structural)]
pub enum ResponseFormat {
    /// 16-bit PCM in a WAVE container.
    Wav,
    /// Opus in an Ogg container.
    OpusOgg,
}

/// "wav"
pub open spec fn wav_name() -> Seq<char> {
    seq!['w', 'a', 'v']
}

/// "opus"
pub open spec fn opus_name() -> Seq<char> {
    seq!['o', 'p', 'u', 's']
}

/// The Unicode lowercase of a string, as `str::to_lowercase` computes it.
pub uninterp spec fn lowercase(s: Seq<char>) -> Seq<char>;

/// Whether every character is ASCII.
pub open spec fn is_ascii_text(s: Seq<char>) -> bool {
    forall|i: int| 0 <= i < s.len() ==> (s[i] as u32) < 128
}

/// The ASCII lowercase of a character: 'A'..='Z' become 'a'..='z'.
pub open spec fn ascii_lower_char(c: char) -> char {
    if 65 <= (c as u32) <= 90 {
        ((c as u32) + 32) as char
    } else {
        c
    }
}

/// Each character of `s` in ASCII lowercase.
pub open spec fn ascii_lowercase(s: Seq<char>) -> Seq<char> {
    s.map_values(|c: char| ascii_lower_char(c))
}

/// `str::to_lowercase`: the lowercase equivalent of the string. On ASCII
/// text this maps 'A'..='Z' to 'a'..='z' and keeps every other character, as
/// the Unicode lowercase mapping does for ASCII.
#[verifier::external_body]
fn str_to_lowercase(s: &str) -> (r: String)
    ensures
        r@ == lowercase(s@),
        is_ascii_text(s@) ==> r@ == ascii_lowercase(s@),
{
    s.to_lowercase()
}

/// The format that a lowercase format name stands for.
pub open spec fn format_named(name: Seq<char>) -> Option<ResponseFormat> {
    if name == wav_name() {
        Some(ResponseFormat::Wav)
    } else if name == opus_name() {
        Some(ResponseFormat::OpusOgg)
    } else {
        None
    }
}

/// "wav" and "opus" are ASCII text in lowercase.
pub proof fn lemma_format_names_lowercase()
    ensures
        is_ascii_text(wav_name()),
        ascii_lowercase(wav_name()) == wav_name(),
        is_ascii_text(opus_name()),
        ascii_lowercase(opus_name()) == opus_name(),
{
    assert(ascii_lowercase(wav_name()) =~= wav_name());
    assert(ascii_lowercase(opus_name()) =~= opus_name());
}

/// "Unsupported response format: "
pub open spec fn unsupported_prefix() -> Seq<char> {
    seq![
        'U', 'n', 's', 'u', 'p', 'p', 'o', 'r', 't', 'e', 'd', ' ', 'r', 'e', 's', 'p', 'o', 'n',
        's', 'e', ' ', 'f', 'o', 'r', 'm', 'a', 't', ':', ' ',
    ]
}

/// ". Supported formats are wav and opus."
pub open spec fn unsupported_suffix() -> Seq<char> {
    seq![
        '.', ' ', 'S', 'u', 'p', 'p', 'o', 'r', 't', 'e', 'd', ' ', 'f', 'o', 'r', 'm', 'a', 't',
        's', ' ', 'a', 'r', 'e', ' ', 'w', 'a', 'v', ' ', 'a', 'n', 'd', ' ', 'o', 'p', 'u', 's',
        '.',
    ]
}

/// A response format that is not supported, as it was requested.
#[derive(Debug)]
pub struct UnsupportedFormat {
    pub value: String,
}

impl UnsupportedFormat {
    /// "Unsupported response format: {value}. Supported formats are wav and opus."
    pub fn message(&self) -> (m: String)
        ensures
            m@ == unsupported_prefix() + self.value@ + unsupported_suffix(),
    {
        let mut m = "Unsupported response format: ".to_owned();
        m.append(self.value.as_str());
        m.append(". Supported formats are wav and opus.");
        proof {
            reveal_strlit("Unsupported response format: ");
            reveal_strlit(". Supported formats are wav and opus.");
        }
        assert(m@ =~= unsupported_prefix() + self.value@ + unsupported_suffix());
        m
    }
}

impl ResponseFormat {
    /// The format that a lowercase name stands for: "wav" or "opus".
    pub fn from_lowercase_name(name: &str) -> (r: Option<ResponseFormat>)
        ensures
            r == format_named(name@),
    {
        let name = name.to_owned();
        let wav = "wav".to_owned();
        let opus = "opus".to_owned();
        proof {
            reveal_strlit("wav");
            reveal_strlit("opus");
        }
        assert(wav@ =~= wav_name());
        assert(opus@ =~= opus_name());
        if name == wav {
            Some(ResponseFormat::Wav)
        } else if name == opus {
            Some(ResponseFormat::OpusOgg)
        } else {
            None
        }
    }

    /// Parses a requested format, whatever its letter case: "wav" or "opus".
    pub fn try_from(value: String) -> (r: Result<ResponseFormat, UnsupportedFormat>)
        ensures
            match r {
                Ok(f) => format_named(lowercase(value@)) == Some(f),
                Err(e) => format_named(lowercase(value@)) is None && e.value@ == value@,
            },
            is_ascii_text(value@) ==> match r {
                Ok(f) => format_named(ascii_lowercase(value@)) == Some(f),
                Err(_) => format_named(ascii_lowercase(value@)) is None,
            },
    {
        let lower = str_to_lowercase(value.as_str());
        match ResponseFormat::from_lowercase_name(lower.as_str()) {
            Some(f) => Ok(f),
            None => Err(UnsupportedFormat { value }),
        }
    }

    /// The media type of the response body.
    pub fn content_type(&self) -> (t: &'static str)
        ensures
            t@ == match self {
                ResponseFormat::Wav => seq!['a', 'u', 'd', 'i', 'o', '/', 'w', 'a', 'v'],
                ResponseFormat::OpusOgg => seq!['a', 'u', 'd', 'i', 'o', '/', 'o', 'p', 'u', 's'],
            },
    {
        match self {
            ResponseFormat::Wav => {
                proof {
                    reveal_strlit("audio/wav");
                }
                let t = "audio/wav";
                assert(t@ =~= seq!['a', 'u', 'd', 'i', 'o', '/', 'w', 'a', 'v']);
                t
            },
            ResponseFormat::OpusOgg => {
                proof {
                    reveal_strlit("audio/opus");
                }
                let t = "audio/opus";
                assert(t@ =~= seq!['a', 'u', 'd', 'i', 'o', '/', 'o', 'p', 'u', 's']);
                t
            },
        }
    }
}

} // verus!
