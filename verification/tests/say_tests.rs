use tugboat::commands::{Directive, SayCommand};
use tugboat::say::{decode_audio_content, extract_option, ssml_wrap, AudioError, CommandOption, TtsService};
use tugboat::session::IdleDurations;
use tugboat::voices::{RawVoice, Voices};

fn opt(name: &str, value: &str) -> CommandOption {
    CommandOption { name: name.to_string(), value: Some(value.to_string()) }
}

fn sample_voices() -> Voices {
    let raw = vec![
        RawVoice {
            name: Some("en-US-Wavenet-A".to_string()),
            language_codes: vec!["en-US".to_string()],
            ssml_gender: Some("MALE".to_string()),
        },
        RawVoice {
            name: Some("en-US-Wavenet-C".to_string()),
            language_codes: vec!["en-US".to_string()],
            ssml_gender: Some("FEMALE".to_string()),
        },
        RawVoice {
            name: Some("fr-FR-Wavenet-B".to_string()),
            language_codes: vec!["fr-FR".to_string()],
            ssml_gender: Some("MALE".to_string()),
        },
    ];
    Voices::from_listing(&raw)
}

#[test]
fn extract_takes_the_last_occurrence() {
    let options = vec![opt("message", "first"), opt("language", "fr-FR"), opt("message", "second")];
    assert_eq!(extract_option(&options, "message"), Some("second".to_string()));
    assert_eq!(extract_option(&options, "language"), Some("fr-FR".to_string()));
    assert_eq!(extract_option(&options, "gender"), None);
}

#[test]
fn extract_yields_nothing_for_a_valueless_option() {
    let options = vec![CommandOption { name: "message".to_string(), value: None }];
    assert_eq!(extract_option(&options, "message"), None);
}

#[test]
fn say_with_empty_message_is_rejected_without_a_plan() {
    let registry = IdleDurations::new();
    let voices = sample_voices();
    for options in [vec![opt("message", "")], vec![], vec![opt("language", "en-US")]] {
        let d = SayCommand.execute(&registry, &voices, &options, 7, 1);
        match d {
            Directive::Reply { message } => {
                assert_eq!(message, "Must supply a string with at least one character")
            }
            _ => panic!("an empty message must be rejected before any provider work"),
        }
    }
}

#[test]
fn say_with_no_matching_voice_is_an_explicit_error() {
    let registry = IdleDurations::new();
    let voices = sample_voices();
    let options = vec![
        opt("message", "bonjour"),
        opt("language", "fr-FR"),
        opt("gender", "FEMALE"),
    ];
    let d = SayCommand.execute(&registry, &voices, &options, 7, 1);
    match d {
        Directive::Reply { message } => {
            assert_eq!(message, "No voices found for this language and gender!")
        }
        _ => panic!("an empty filtered voice set must be rejected"),
    }
}

#[test]
fn say_for_unknown_language_is_an_explicit_error() {
    let registry = IdleDurations::new();
    let voices = sample_voices();
    let options = vec![opt("message", "hallo"), opt("language", "de-DE")];
    let d = SayCommand.execute(&registry, &voices, &options, 7, 1);
    match d {
        Directive::Reply { message } => {
            assert_eq!(message, "No voices found for this language and gender!")
        }
        _ => panic!("a language without voices must be rejected"),
    }
}

#[test]
fn say_builds_a_full_plan_with_default_language() {
    let registry = IdleDurations::new();
    let voices = sample_voices();
    let options = vec![opt("message", "hello world")];
    let d = SayCommand.execute(&registry, &voices, &options, 7, 1);
    match d {
        Directive::PerformSay { plan } => {
            assert_eq!(plan.guild_id, 7);
            assert_eq!(plan.channel_id, 1);
            assert!(plan.needs_join);
            assert_eq!(plan.request.language_code, "en-US");
            assert!(
                plan.request.voice_name == "en-US-Wavenet-A"
                    || plan.request.voice_name == "en-US-Wavenet-C"
            );
            assert_eq!(plan.request.ssml, "<speak>hello world</speak>");
        }
        _ => panic!("a valid say must yield a plan"),
    }
}

#[test]
fn say_gender_filter_picks_the_matching_voice() {
    let registry = IdleDurations::new();
    let voices = sample_voices();
    let options = vec![opt("message", "hi"), opt("gender", "FEMALE")];
    let d = SayCommand.execute(&registry, &voices, &options, 7, 1);
    match d {
        Directive::PerformSay { plan } => {
            assert_eq!(plan.request.voice_name, "en-US-Wavenet-C");
        }
        _ => panic!("a valid say must yield a plan"),
    }
}

#[test]
fn say_implicit_join_uses_the_callers_channel() {
    let mut registry = IdleDurations::new();
    let voices = sample_voices();
    let options = vec![opt("message", "hi")];
    let d = SayCommand.execute(&registry, &voices, &options, 7, 4);
    match d {
        Directive::PerformSay { plan } => {
            assert!(plan.needs_join);
            assert_eq!(registry.join(plan.guild_id, plan.channel_id), Ok(()));
            assert_eq!(registry.current_channel(7), Some(4));
        }
        _ => panic!("a valid say must yield a plan"),
    }
}

#[test]
fn say_with_existing_session_needs_no_join() {
    let mut registry = IdleDurations::new();
    assert_eq!(registry.join(7, 4), Ok(()));
    let voices = sample_voices();
    let options = vec![opt("message", "hi")];
    let d = SayCommand.execute(&registry, &voices, &options, 7, 4);
    match d {
        Directive::PerformSay { plan } => assert!(!plan.needs_join),
        _ => panic!("a valid say must yield a plan"),
    }
}

#[test]
fn say_from_another_channel_is_turned_away() {
    let mut registry = IdleDurations::new();
    assert_eq!(registry.join(7, 4), Ok(()));
    let voices = sample_voices();
    let options = vec![opt("message", "hi")];
    let d = SayCommand.execute(&registry, &voices, &options, 7, 5);
    match d {
        Directive::Reply { message } => {
            assert_eq!(message, "Can't tell me what to do if you're not in the same voice channel!")
        }
        _ => panic!("a caller in another channel must be turned away"),
    }
}

#[test]
fn builder_rejections_are_exact() {
    let voices = sample_voices();
    let builder = TtsService;
    let r = builder.build_request(&voices, &None, &None, &None);
    assert!(r.is_err());
    let r2 = builder.build_request(
        &voices,
        &Some("text".to_string()),
        &Some("fr-FR".to_string()),
        &Some("FEMALE".to_string()),
    );
    assert!(r2.is_err());
    let r3 = builder.build_request(&voices, &Some("text".to_string()), &None, &None);
    match r3 {
        Ok(req) => assert_eq!(req.ssml, "<speak>text</speak>"),
        Err(_) => panic!("a valid request must be built"),
    }
}

#[test]
fn ssml_wrap_builds_the_envelope() {
    assert_eq!(ssml_wrap("hi there"), "<speak>hi there</speak>");
    assert_eq!(ssml_wrap(""), "<speak></speak>");
}

#[test]
fn audio_decoding_round_trips_base64() {
    let r = decode_audio_content(&Some("AAEC".to_string()));
    assert_eq!(r, Ok(vec![0u8, 1, 2]));
    let hello = decode_audio_content(&Some("aGVsbG8=".to_string()));
    assert_eq!(hello, Ok(b"hello".to_vec()));
}

#[test]
fn audio_decoding_rejects_bad_input() {
    assert_eq!(decode_audio_content(&None), Err(AudioError::MissingContent));
    assert_eq!(
        decode_audio_content(&Some("!!!".to_string())),
        Err(AudioError::InvalidBase64)
    );
}
