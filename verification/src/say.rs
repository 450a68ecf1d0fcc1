//! The say flow: extracting the message, language and gender options from a
//! command invocation, and building the speech-synthesis request — including
//! the random choice among the matching voices and the decoding of the
//! provider's base64 audio payload.

use vstd::prelude::*;
use vstd::string::StringExecFns;
use crate::text::str_eq_string;
use crate::voices::{opt_str_view, spec_matching_voices, string_views, Voices};

verus! {

/// One named option of a command invocation; the value is the option's
/// string payload where it carries one.
pub struct CommandOption {
    pub name: String,
    pub value: Option<String>,
}

/// Abstract value of a [`CommandOption`].
#[verifier::ext_equal]
pub struct CommandOptionView {
    pub name: Seq<char>,
    pub value: Option<Seq<char>>,
}

impl View for CommandOption {
    type V = CommandOptionView;

    closed spec fn view(&self) -> CommandOptionView {
        CommandOptionView {
            name: self.name@,
            value: (match self.value {
                Some(s) => Some(s@),
                None => None,
            }),
        }
    }
}

/// The views of a sequence of command options.
pub open spec fn option_views(s: Seq<CommandOption>) -> Seq<CommandOptionView> {
    s.map_values(|o: CommandOption| o@)
}

/// The value of the last option with the given name: a later occurrence
/// overrides an earlier one, and a name that never occurs, or whose last
/// occurrence carries no string payload, yields nothing.
pub open spec fn spec_option_value(opts: Seq<CommandOptionView>, name: Seq<char>) -> Option<
    Seq<char>,
>
    decreases opts.len(),
{
    if opts.len() == 0 {
        None
    } else if opts.last().name == name {
        opts.last().value
    } else {
        spec_option_value(opts.drop_last(), name)
    }
}

/// Extracts the named option's string value from an invocation.
pub fn extract_option(options: &Vec<CommandOption>, name: &str) -> (r: Option<String>)
    ensures
        opt_str_view(r) == spec_option_value(option_views(options@), name@),
{
    let mut r: Option<String> = None;
    let n = options.len();
    let mut i: usize = 0;
    proof {
        assert(option_views(options@).take(0) =~= Seq::<CommandOptionView>::empty());
    }
    while i < n
        invariant
            i <= n,
            n == options@.len(),
            opt_str_view(r) == spec_option_value(option_views(options@).take(i as int), name@),
        decreases n - i,
    {
        proof {
            assert(option_views(options@).take(i + 1).drop_last() =~= option_views(
                options@,
            ).take(i as int));
            assert(option_views(options@).take(i + 1).last() == options@[i as int]@);
        }
        if str_eq_string(name, &options[i].name) {
            r = match &options[i].value {
                Some(s) => Some(s.clone()),
                None => None,
            };
        }
        i = i + 1;
    }
    proof {
        assert(option_views(options@).take(n as int) =~= option_views(options@));
    }
    r
}

/// A speech-synthesis request, ready for the provider: the language, the
/// chosen voice, and the message wrapped in the provider's markup envelope.
pub struct SynthesisRequest {
    pub language_code: String,
    pub voice_name: String,
    pub ssml: String,
}

/// Rejections of the synthesis request builder.
#[derive(Clone, Copy, Debug, PartialEq, Eq, Structural)]
pub enum SayError {
    /// The message is missing or empty.
    EmptyMessage,
    /// No catalog voice matches the requested language and gender.
    NoMatchingVoices,
}

/// The language code a say invocation asks for, by default `en-US`.
pub open spec fn spec_language_or_default(language: Option<Seq<char>>) -> Seq<char> {
    match language {
        Some(l) => l,
        None => "en-US"@,
    }
}

/// The message wrapped in the provider's markup envelope.
pub open spec fn spec_ssml_wrap(message: Seq<char>) -> Seq<char> {
    "<speak>"@ + message + "</speak>"@
}

/// A present, non-empty message.
pub open spec fn message_acceptable(message: Option<Seq<char>>) -> bool {
    message matches Some(m) && m.len() > 0
}

/// The names of the catalog voices a say invocation may use.
pub open spec fn available_voices(
    cat: Seq<(Seq<char>, crate::voices::VoiceInfoView)>,
    language: Option<Seq<char>>,
    gender: Option<Seq<char>>,
) -> Seq<Seq<char>> {
    spec_matching_voices(cat, spec_language_or_default(language), gender)
}

/// What the synthesis request builder returns: an empty or missing message
/// is rejected first; an empty filtered voice set is rejected next; otherwise
/// the request carries the defaulted language, one of the matching voices,
/// and the wrapped message.
pub open spec fn build_request_post(
    cat: Seq<(Seq<char>, crate::voices::VoiceInfoView)>,
    message: Option<Seq<char>>,
    language: Option<Seq<char>>,
    gender: Option<Seq<char>>,
    r: Result<SynthesisRequest, SayError>,
) -> bool {
    &&& (r == Err::<SynthesisRequest, SayError>(SayError::EmptyMessage) <==> !message_acceptable(
        message,
    ))
    &&& (r == Err::<SynthesisRequest, SayError>(SayError::NoMatchingVoices) <==> (
    message_acceptable(message) && available_voices(cat, language, gender).len() == 0))
    &&& (r matches Ok(req) ==> {
        &&& message_acceptable(message)
        &&& available_voices(cat, language, gender).len() > 0
        &&& req.language_code@ == spec_language_or_default(language)
        &&& available_voices(cat, language, gender).contains(req.voice_name@)
        &&& req.ssml@ == spec_ssml_wrap(message->0)
    })
}

/// Wraps a message in the provider's markup envelope.
pub fn ssml_wrap(message: &str) -> (s: String)
    ensures
        s@ == spec_ssml_wrap(message@),
{
    let mut s: String = "<speak>".to_owned();
    s.append(message);
    s.append("</speak>");
    proof {
        assert(s@ =~= spec_ssml_wrap(message@));
    }
    s
}

/// The synthesis request builder.
pub struct TtsService;

impl TtsService {
    /// Builds the provider request for a say invocation: checks the message,
    /// applies the default language, filters the voice catalog by language
    /// and gender, and picks one matching voice at random.
    pub fn build_request(
        &self,
        voices: &Voices,
        message: &Option<String>,
        language: &Option<String>,
        gender: &Option<String>,
    ) -> (r: Result<SynthesisRequest, SayError>)
        ensures
            build_request_post(
                voices@,
                opt_str_view(*message),
                opt_str_view(*language),
                opt_str_view(*gender),
                r,
            ),
    {
        let msg = match message {
            Some(m) => {
                if m.as_str().is_empty() {
                    return Err(SayError::EmptyMessage);
                }
                m
            },
            None => {
                return Err(SayError::EmptyMessage);
            },
        };
        let language_code: String = match language {
            Some(l) => l.clone(),
            None => "en-US".to_owned(),
        };
        let names = voices.matching_voice_names(language_code.as_str(), gender);
        if names.len() == 0 {
            return Err(SayError::NoMatchingVoices);
        }
        let idx = random_below(names.len());
        let voice_name = names[idx].clone();
        proof {
            assert(string_views(names@)[idx as int] == voice_name@);
        }
        let ssml = ssml_wrap(msg.as_str());
        Ok(SynthesisRequest { language_code, voice_name, ssml })
    }
}

/// Failures when taking over the provider's audio payload.
#[derive(Clone, Copy, Debug, PartialEq, Eq, Structural)]
pub enum AudioError {
    /// The provider returned no audio content at all.
    MissingContent,
    /// The returned content is not valid base64.
    InvalidBase64,
}

/// What `base64::decode` returns for a given input, as a value: the bytes
/// where the input is valid base64, nothing where it is not.
pub uninterp spec fn base64_decode_result(s: Seq<char>) -> Option<Seq<u8>>;

/// Relies on base64::decode: whether the input decodes, and to which bytes,
/// depends on the input characters alone.
#[verifier::external_body]
fn decode_base64(s: &str) -> (r: Option<Vec<u8>>)
    ensures
        (match r {
            Some(bytes) => base64_decode_result(s@) == Some(bytes@),
            None => base64_decode_result(s@) is None,
        }),
{
    match base64::decode(s) {
        Ok(v) => Some(v),
        Err(_) => None,
    }
}

/// Decodes the audio payload of a synthesis response: missing content and
/// content that is not valid base64 are each rejected with their own error.
pub fn decode_audio_content(content: &Option<String>) -> (r: Result<Vec<u8>, AudioError>)
    ensures
        (r == Err::<Vec<u8>, AudioError>(AudioError::MissingContent) <==> *content is None),
        (content matches Some(c) ==> (match r {
            Ok(bytes) => base64_decode_result(c@) == Some(bytes@),
            Err(e) => e == AudioError::InvalidBase64 && base64_decode_result(c@) is None,
        })),
{
    match content {
        Some(c) => match decode_base64(c.as_str()) {
            Some(bytes) => Ok(bytes),
            None => Err(AudioError::InvalidBase64),
        },
        None => Err(AudioError::MissingContent),
    }
}

/// Relies on fastrand::usize: a random value drawn from the given non-empty
/// range; which one depends on global generator state.
#[verifier::external_body]
fn random_below(n: usize) -> (r: usize)
    requires
        n > 0,
    ensures
        r < n,
{
    fastrand::usize(..n)
}

} // verus!
