use tugboat::commands::{
    register_commands, ApplicationCommandHandler, CommandKind, CommandScope, Directive,
    JoinCommand, LanguagesCommand, LeaveCommand, RegistrationPlan, SayCommand, SkipCommand,
};
use tugboat::say::CommandOption;
use tugboat::session::IdleDurations;
use tugboat::voices::{RawVoice, Voices};

fn sample_voices() -> Voices {
    let raw = vec![
        RawVoice {
            name: Some("en-US-Wavenet-A".to_string()),
            language_codes: vec!["en-US".to_string()],
            ssml_gender: Some("MALE".to_string()),
        },
        RawVoice {
            name: Some("fr-FR-Wavenet-B".to_string()),
            language_codes: vec!["fr-FR".to_string()],
            ssml_gender: Some("FEMALE".to_string()),
        },
    ];
    Voices::from_listing(&raw)
}

fn handler() -> ApplicationCommandHandler {
    ApplicationCommandHandler { prefix: "tugboat".to_string(), scope: CommandScope::Global }
}

#[test]
fn registry_maps_all_five_commands() {
    let commands = register_commands();
    assert_eq!(commands.lookup("say"), Some(CommandKind::Say));
    assert_eq!(commands.lookup("join"), Some(CommandKind::Join));
    assert_eq!(commands.lookup("leave"), Some(CommandKind::Leave));
    assert_eq!(commands.lookup("skip"), Some(CommandKind::Skip));
    assert_eq!(commands.lookup("languages"), Some(CommandKind::Languages));
    assert_eq!(commands.lookup("dance"), None);
}

#[test]
fn command_names_match_registration() {
    assert_eq!(JoinCommand.get_name(), "join");
    assert_eq!(LeaveCommand.get_name(), "leave");
    assert_eq!(SkipCommand.get_name(), "skip");
    assert_eq!(SayCommand.get_name(), "say");
    assert_eq!(LanguagesCommand.get_name(), "languages");
}

#[test]
fn scope_parses_known_values_only() {
    assert_eq!(CommandScope::from_str("guild"), Ok(CommandScope::Guild));
    assert_eq!(CommandScope::from_str("global"), Ok(CommandScope::Global));
    assert_eq!(
        CommandScope::from_str("everywhere"),
        Err("Invalid value of command scope, can only be one of either 'guild' or 'global'"
            .to_string())
    );
}

#[test]
fn dispatch_outside_guild_is_turned_away() {
    let commands = register_commands();
    let mut registry = IdleDurations::new();
    let voices = sample_voices();
    let d = handler().handle_interaction(&commands, &mut registry, &voices, None, Some(1), "join", &vec![]);
    match d {
        Directive::Reply { message } => {
            assert_eq!(message, "Can't call this from a non-guild context")
        }
        _ => panic!("a non-guild command must only get a reply"),
    }
}

#[test]
fn dispatch_caller_not_in_voice_channel() {
    let commands = register_commands();
    let mut registry = IdleDurations::new();
    let voices = sample_voices();
    let d = handler().handle_interaction(&commands, &mut registry, &voices, Some(7), None, "join", &vec![]);
    match d {
        Directive::Reply { message } => {
            assert_eq!(message, "Can't tell me what to do if you're not in a voice channel!")
        }
        _ => panic!("a caller outside voice channels must only get a reply"),
    }
}

#[test]
fn dispatch_unknown_command_is_a_generic_failure() {
    let commands = register_commands();
    let mut registry = IdleDurations::new();
    let voices = sample_voices();
    let d = handler().handle_interaction(&commands, &mut registry, &voices, Some(7), Some(1), "dance", &vec![]);
    match d {
        Directive::Reply { message } => assert_eq!(message, "Error completing interaction."),
        _ => panic!("an unknown command must only get a reply"),
    }
}

#[test]
fn dispatch_join_attempts_then_rejects_second() {
    let commands = register_commands();
    let mut registry = IdleDurations::new();
    let voices = sample_voices();
    let d = handler().handle_interaction(&commands, &mut registry, &voices, Some(7), Some(1), "join", &vec![]);
    match d {
        Directive::AttemptJoin { guild_id, channel_id } => {
            assert_eq!(guild_id, 7);
            assert_eq!(channel_id, 1);
        }
        _ => panic!("a first join must attempt the transport join"),
    }
    assert_eq!(registry.join(7, 1), Ok(()));
    let d2 = handler().handle_interaction(&commands, &mut registry, &voices, Some(7), Some(1), "join", &vec![]);
    match d2 {
        Directive::Reply { message } => assert_eq!(message, "Already connected to a voice channel."),
        _ => panic!("a second join must be turned away"),
    }
    assert_eq!(registry.current_channel(7), Some(1));
}

#[test]
fn dispatch_leave_flows() {
    let commands = register_commands();
    let mut registry = IdleDurations::new();
    let voices = sample_voices();
    let d = handler().handle_interaction(&commands, &mut registry, &voices, Some(7), Some(1), "leave", &vec![]);
    match d {
        Directive::Reply { message } => assert_eq!(message, "I'm not in a voice channel."),
        _ => panic!("leave without a session must only get a reply"),
    }
    assert_eq!(registry.join(7, 1), Ok(()));
    let d2 = handler().handle_interaction(&commands, &mut registry, &voices, Some(7), Some(2), "leave", &vec![]);
    match d2 {
        Directive::Reply { message } => {
            assert_eq!(message, "Can't tell me what to do if you're not in the same voice channel!")
        }
        _ => panic!("leave from another channel must be turned away"),
    }
    assert!(registry.is_connected(7));
    let d3 = handler().handle_interaction(&commands, &mut registry, &voices, Some(7), Some(1), "leave", &vec![]);
    match d3 {
        Directive::PerformLeave { guild_id, session } => {
            assert_eq!(guild_id, 7);
            assert_eq!(session.channel_id(), 1);
        }
        _ => panic!("leave from the session's channel must be carried out"),
    }
    assert!(!registry.is_connected(7));
}

#[test]
fn dispatch_skip_flows() {
    let commands = register_commands();
    let mut registry = IdleDurations::new();
    let voices = sample_voices();
    let d = handler().handle_interaction(&commands, &mut registry, &voices, Some(7), Some(1), "skip", &vec![]);
    match d {
        Directive::Reply { message } => assert_eq!(message, "Not in a voice channel right now."),
        _ => panic!("skip without a session must only get a reply"),
    }
    assert_eq!(registry.join(7, 1), Ok(()));
    let d2 = handler().handle_interaction(&commands, &mut registry, &voices, Some(7), Some(2), "skip", &vec![]);
    match d2 {
        Directive::Reply { message } => {
            assert_eq!(message, "Can't tell me what to do if you're not in the same voice channel!")
        }
        _ => panic!("skip from another channel must be turned away"),
    }
    let d3 = handler().handle_interaction(&commands, &mut registry, &voices, Some(7), Some(1), "skip", &vec![]);
    match d3 {
        Directive::PerformSkip { guild_id } => assert_eq!(guild_id, 7),
        _ => panic!("skip from the session's channel must be carried out"),
    }
    assert!(registry.is_connected(7));
}

#[test]
fn languages_reply_counts_and_lists() {
    let voices = sample_voices();
    let d = LanguagesCommand.execute(&voices);
    match d {
        Directive::Reply { message } => {
            assert_eq!(message, "2 languages available:\nen-US, fr-FR")
        }
        _ => panic!("languages must reply with the listing"),
    }
}

#[test]
fn languages_reply_on_empty_catalog() {
    let voices = Voices::from_listing(&vec![]);
    let d = LanguagesCommand.execute(&voices);
    match d {
        Directive::Reply { message } => assert_eq!(message, "0 languages available:\n"),
        _ => panic!("languages must reply with the listing"),
    }
}

#[test]
fn success_messages() {
    assert_eq!(JoinCommand.success_message(), "Joined voice channel");
    assert_eq!(LeaveCommand.success_message(), "Left voice channel");
    assert_eq!(SkipCommand.success_message(), "Skipped.");
}

#[test]
fn registration_targets_follow_scope() {
    let global = handler();
    match global.registration_targets(&vec![(1, false)]) {
        RegistrationPlan::Global => {}
        _ => panic!("global scope must register globally"),
    }
    let per_guild = ApplicationCommandHandler {
        prefix: "tugboat".to_string(),
        scope: CommandScope::Guild,
    };
    match per_guild.registration_targets(&vec![(1, false), (2, true), (3, false)]) {
        RegistrationPlan::PerGuild { guild_ids } => assert_eq!(guild_ids, vec![1, 3]),
        _ => panic!("guild scope must register per guild"),
    }
}

#[test]
fn languages_dispatch_lists_the_catalog() {
    let commands = register_commands();
    let mut registry = IdleDurations::new();
    let voices = sample_voices();
    let d = handler().handle_interaction(&commands, &mut registry, &voices, Some(7), Some(1), "languages", &vec![]);
    match d {
        Directive::Reply { message } => {
            assert_eq!(message, "2 languages available:\nen-US, fr-FR")
        }
        _ => panic!("languages must reply with the listing"),
    }
}

#[test]
fn say_dispatch_honours_the_language_option() {
    let commands = register_commands();
    let mut registry = IdleDurations::new();
    let voices = sample_voices();
    let options = vec![
        CommandOption { name: "message".to_string(), value: Some("bonjour".to_string()) },
        CommandOption { name: "language".to_string(), value: Some("fr-FR".to_string()) },
    ];
    let d = handler().handle_interaction(&commands, &mut registry, &voices, Some(7), Some(1), "say", &options);
    match d {
        Directive::PerformSay { plan } => {
            assert_eq!(plan.request.language_code, "fr-FR");
            assert_eq!(plan.request.voice_name, "fr-FR-Wavenet-B");
            assert_eq!(plan.request.ssml, "<speak>bonjour</speak>");
            assert_eq!(plan.message, "bonjour");
        }
        _ => panic!("a valid say must yield a plan"),
    }
}

#[test]
fn say_dispatch_reaches_the_say_logic() {
    let commands = register_commands();
    let mut registry = IdleDurations::new();
    let voices = sample_voices();
    let options = vec![CommandOption {
        name: "message".to_string(),
        value: Some("hello".to_string()),
    }];
    let d = handler().handle_interaction(&commands, &mut registry, &voices, Some(7), Some(1), "say", &options);
    match d {
        Directive::PerformSay { plan } => {
            assert_eq!(plan.guild_id, 7);
            assert_eq!(plan.channel_id, 1);
            assert!(plan.needs_join);
        }
        _ => panic!("a valid say must yield a plan"),
    }
}
