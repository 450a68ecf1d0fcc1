//! The command dispatcher: the table of registered commands, the decision
//! logic of each command, and the screening every incoming interaction goes
//! through before a command runs.
//!
//! Each `execute` decides from the session registry and the invocation what
//! the outward-facing shell must do next: either answer with a message, or
//! perform an action against the voice transport or the synthesis provider.
//! The decisions themselves, and every state change of the registry, are
//! verified; the shell only carries them out.

use vstd::prelude::*;
use vstd::string::StringExecFns;
use crate::say::{
    available_voices, extract_option, message_acceptable, option_views, spec_language_or_default,
    spec_option_value, spec_ssml_wrap, CommandOption, SayError, SynthesisRequest, TtsService,
};
use crate::session::{spec_join, IdleDurations, SessionView};
use crate::text::{join_strings, spec_dec_str, spec_join_seq, str_eq, str_eq_string, u64_to_dec};
use crate::voices::{spec_distinct_keys, string_views, VoiceInfoView, Voices};

verus! {

/// Reply to a command issued outside any guild.
pub open spec fn msg_non_guild() -> Seq<char> {
    "Can't call this from a non-guild context"@
}

/// Reply to a caller who is not in any voice channel.
pub open spec fn msg_not_in_voice() -> Seq<char> {
    "Can't tell me what to do if you're not in a voice channel!"@
}

/// Reply to a caller in a different voice channel than the bot.
pub open spec fn msg_not_in_same() -> Seq<char> {
    "Can't tell me what to do if you're not in the same voice channel!"@
}

/// Reply when a command is unknown or its action failed.
pub open spec fn msg_generic_error() -> Seq<char> {
    "Error completing interaction."@
}

/// Reply to a `join` for a guild that already holds a session.
pub open spec fn msg_already_connected() -> Seq<char> {
    "Already connected to a voice channel."@
}

/// Reply to a `leave` for a guild with no session.
pub open spec fn msg_not_connected() -> Seq<char> {
    "I'm not in a voice channel."@
}

/// Reply to a `skip` or playback request with no session.
pub open spec fn msg_no_session_now() -> Seq<char> {
    "Not in a voice channel right now."@
}

/// Reply to a `say` without a usable message.
pub open spec fn msg_empty_message() -> Seq<char> {
    "Must supply a string with at least one character"@
}

/// Reply to a `say` whose language and gender no catalog voice matches.
pub open spec fn msg_no_matching_voices() -> Seq<char> {
    "No voices found for this language and gender!"@
}

/// Reply to an invalid command-scope configuration value.
pub open spec fn msg_invalid_scope() -> Seq<char> {
    "Invalid value of command scope, can only be one of either 'guild' or 'global'"@
}

/// The kinds of command the bot understands.
#[derive(Clone, Copy, Debug, PartialEq, Eq, Structural)]
pub enum CommandKind {
    Join,
    Leave,
    Skip,
    Say,
    Languages,
}

/// What the outward-facing shell must do after a command was decided.
pub enum Directive {
    /// Answer the caller with this message; nothing else happens.
    Reply { message: String },
    /// Ask the voice transport to join the channel; on success the shell
    /// records the session with [`IdleDurations::join`] and replies with
    /// [`JoinCommand::success_message`], on failure it replies with the
    /// generic error and records nothing.
    AttemptJoin { guild_id: u64, channel_id: u64 },
    /// The session is already removed; ask the voice transport to leave,
    /// release the session's pending resources, and reply with
    /// [`LeaveCommand::success_message`].
    PerformLeave { guild_id: u64, session: crate::session::GuildVoiceSession },
    /// Ask the voice transport to skip the playing track and reply with
    /// [`SkipCommand::success_message`].
    PerformSkip { guild_id: u64 },
    /// Carry out a say: join first if the plan asks for it, then synthesize
    /// and enqueue.
    PerformSay { plan: SayPlan },
}

/// Everything the shell needs to carry out a decided say.
pub struct SayPlan {
    /// The guild the say is for.
    pub guild_id: u64,
    /// The caller's voice channel, which an implicit join must use.
    pub channel_id: u64,
    /// Whether the guild holds no session yet, so that a join must come
    /// first.
    pub needs_join: bool,
    /// The raw message text, echoed back to the caller once the audio is
    /// queued.
    pub message: String,
    /// The provider request to synthesize.
    pub request: SynthesisRequest,
}

/// The dispatch table from command name to command kind.
pub struct CommandsMap {
    entries: Vec<(String, CommandKind)>,
}

/// The abstract value of a dispatch table.
pub open spec fn commands_view(s: Seq<(String, CommandKind)>) -> Seq<(Seq<char>, CommandKind)> {
    s.map_values(|e: (String, CommandKind)| (e.0@, e.1))
}

impl View for CommandsMap {
    type V = Seq<(Seq<char>, CommandKind)>;

    closed spec fn view(&self) -> Seq<(Seq<char>, CommandKind)> {
        commands_view(self.entries@)
    }
}

/// The first command bound to the name, if any.
pub open spec fn spec_lookup(cmds: Seq<(Seq<char>, CommandKind)>, name: Seq<char>) -> Option<
    CommandKind,
>
    decreases cmds.len(),
{
    if cmds.len() == 0 {
        None
    } else if cmds[0].0 == name {
        Some(cmds[0].1)
    } else {
        spec_lookup(cmds.drop_first(), name)
    }
}

proof fn lemma_spec_lookup_skip(cmds: Seq<(Seq<char>, CommandKind)>, name: Seq<char>, i: int)
    requires
        0 <= i <= cmds.len(),
        forall|j: int| 0 <= j < i ==> cmds[j].0 != name,
    ensures
        spec_lookup(cmds, name) == spec_lookup(cmds.skip(i), name),
    decreases i,
{
    if i > 0 {
        lemma_spec_lookup_skip(cmds, name, i - 1);
        assert(cmds.skip(i - 1).drop_first() =~= cmds.skip(i));
        assert(cmds.skip(i - 1)[0] == cmds[i - 1]);
    } else {
        assert(cmds.skip(0) =~= cmds);
    }
}

impl CommandsMap {
    /// The command registered under the name, if any.
    pub fn lookup(&self, name: &str) -> (r: Option<CommandKind>)
        ensures
            r == spec_lookup(self@, name@),
    {
        let n = self.entries.len();
        let mut i: usize = 0;
        while i < n
            invariant
                i <= n,
                n == self.entries@.len(),
                self@ == commands_view(self.entries@),
                self@.len() == n,
                forall|j: int| 0 <= j < i ==> self@[j].0 != name@,
            decreases n - i,
        {
            proof {
                assert(self@[i as int] == (self.entries@[i as int].0@, self.entries@[i as int].1));
            }
            if str_eq_string(name, &self.entries[i].0) {
                proof {
                    lemma_spec_lookup_skip(self@, name@, i as int);
                    assert(self@.skip(i as int)[0] == self@[i as int]);
                }
                return Some(self.entries[i].1);
            }
            i = i + 1;
        }
        proof {
            lemma_spec_lookup_skip(self@, name@, n as int);
            assert(self@.skip(n as int) =~= Seq::<(Seq<char>, CommandKind)>::empty());
        }
        None
    }
}

/// The fixed registry of the five commands, in registration order.
pub open spec fn spec_command_registry() -> Seq<(Seq<char>, CommandKind)> {
    seq![
        ("say"@, CommandKind::Say),
        ("join"@, CommandKind::Join),
        ("leave"@, CommandKind::Leave),
        ("skip"@, CommandKind::Skip),
        ("languages"@, CommandKind::Languages),
    ]
}

/// Builds the dispatch table of all commands the bot offers.
pub fn register_commands() -> (m: CommandsMap)
    ensures
        m@ == spec_command_registry(),
{
    let mut entries: Vec<(String, CommandKind)> = Vec::new();
    entries.push(("say".to_owned(), CommandKind::Say));
    entries.push(("join".to_owned(), CommandKind::Join));
    entries.push(("leave".to_owned(), CommandKind::Leave));
    entries.push(("skip".to_owned(), CommandKind::Skip));
    entries.push(("languages".to_owned(), CommandKind::Languages));
    let m = CommandsMap { entries };
    proof {
        assert(m@ =~= spec_command_registry());
    }
    m
}

/// Where the commands are registered with the chat platform.
#[derive(Clone, Copy, Debug, PartialEq, Eq, Structural)]
pub enum CommandScope {
    /// Registered per guild.
    Guild,
    /// Registered once, globally.
    Global,
}

impl CommandScope {
    /// Parses a configuration value: only `guild` and `global` are accepted.
    pub fn from_str(s: &str) -> (r: Result<CommandScope, String>)
        ensures
            s@ == "guild"@ ==> r == Ok::<CommandScope, String>(CommandScope::Guild),
            s@ == "global"@ ==> r == Ok::<CommandScope, String>(CommandScope::Global),
            s@ != "guild"@ && s@ != "global"@ ==> (r matches Err(m) && m@ == msg_invalid_scope()),
    {
        proof {
            reveal_strlit("guild");
            reveal_strlit("global");
            assert("guild"@.len() == 5);
            assert("global"@.len() == 6);
        }
        if str_eq(s, "guild") {
            Ok(CommandScope::Guild)
        } else if str_eq(s, "global") {
            Ok(CommandScope::Global)
        } else {
            Err(
                "Invalid value of command scope, can only be one of either 'guild' or 'global'".to_owned(),
            )
        }
    }
}

/// What `join` decides: a guild that already holds a session is turned away
/// with a message and nothing changes; otherwise the shell is told to
/// attempt the transport join on the caller's channel.
pub open spec fn join_execute_post(
    m: Map<u64, SessionView>,
    guild_id: u64,
    channel_id: u64,
    d: Directive,
) -> bool {
    if m.contains_key(guild_id) {
        d matches Directive::Reply { message } && message@ == msg_already_connected()
    } else {
        d matches Directive::AttemptJoin { guild_id: g, channel_id: c } && g == guild_id && c
            == channel_id
    }
}

/// The `join` command.
pub struct JoinCommand;

impl JoinCommand {
    /// The name the command is registered under.
    pub fn get_name(&self) -> (r: String)
        ensures
            r@ == "join"@,
    {
        "join".to_owned()
    }

    /// The reply once the transport join succeeded.
    pub fn success_message(&self) -> (r: String)
        ensures
            r@ == "Joined voice channel"@,
    {
        "Joined voice channel".to_owned()
    }

    /// Decides a join request against the current registry state.
    pub fn execute(&self, registry: &IdleDurations, guild_id: u64, channel_id: u64) -> (d:
        Directive)
        ensures
            join_execute_post(registry@, guild_id, channel_id, d),
    {
        if registry.is_connected(guild_id) {
            Directive::Reply { message: "Already connected to a voice channel.".to_owned() }
        } else {
            Directive::AttemptJoin { guild_id, channel_id }
        }
    }
}

/// What `leave` decides: no session or a caller in another channel is
/// turned away and nothing changes; otherwise the session is removed and
/// handed to the shell for transport leave and resource cleanup.
pub open spec fn leave_execute_post(
    pre: Map<u64, SessionView>,
    post: Map<u64, SessionView>,
    guild_id: u64,
    channel_id: u64,
    d: Directive,
) -> bool {
    if !pre.contains_key(guild_id) {
        post == pre && (d matches Directive::Reply { message } && message@ == msg_not_connected())
    } else if pre[guild_id].channel_id != channel_id {
        post == pre && (d matches Directive::Reply { message } && message@ == msg_not_in_same())
    } else {
        post == pre.remove(guild_id) && (d matches Directive::PerformLeave { guild_id: g, session }
            && g == guild_id && session@ == pre[guild_id])
    }
}

/// The `leave` command.
pub struct LeaveCommand;

impl LeaveCommand {
    /// The name the command is registered under.
    pub fn get_name(&self) -> (r: String)
        ensures
            r@ == "leave"@,
    {
        "leave".to_owned()
    }

    /// The reply once the leave was carried out.
    pub fn success_message(&self) -> (r: String)
        ensures
            r@ == "Left voice channel"@,
    {
        "Left voice channel".to_owned()
    }

    /// Decides a leave request and removes the session where it is allowed.
    pub fn execute(&self, registry: &mut IdleDurations, guild_id: u64, channel_id: u64) -> (d:
        Directive)
        ensures
            leave_execute_post(old(registry)@, final(registry)@, guild_id, channel_id, d),
    {
        match registry.current_channel(guild_id) {
            None => Directive::Reply { message: "I'm not in a voice channel.".to_owned() },
            Some(c) => {
                if c != channel_id {
                    Directive::Reply {
                        message:
                            "Can't tell me what to do if you're not in the same voice channel!".to_owned(),
                    }
                } else {
                    match registry.leave(guild_id) {
                        Ok(session) => Directive::PerformLeave { guild_id, session },
                        Err(_) => {
                            proof {
                                assert(false);
                            }
                            Directive::Reply { message: String::new() }
                        },
                    }
                }
            },
        }
    }
}

/// What `skip` decides: no session or a caller in another channel is turned
/// away; otherwise the shell is told to skip the playing track. The registry
/// is never changed.
pub open spec fn skip_execute_post(
    m: Map<u64, SessionView>,
    guild_id: u64,
    channel_id: u64,
    d: Directive,
) -> bool {
    if !m.contains_key(guild_id) {
        d matches Directive::Reply { message } && message@ == msg_no_session_now()
    } else if m[guild_id].channel_id != channel_id {
        d matches Directive::Reply { message } && message@ == msg_not_in_same()
    } else {
        d matches Directive::PerformSkip { guild_id: g } && g == guild_id
    }
}

/// The `skip` command.
pub struct SkipCommand;

impl SkipCommand {
    /// The name the command is registered under.
    pub fn get_name(&self) -> (r: String)
        ensures
            r@ == "skip"@,
    {
        "skip".to_owned()
    }

    /// The reply once the skip was carried out.
    pub fn success_message(&self) -> (r: String)
        ensures
            r@ == "Skipped."@,
    {
        "Skipped.".to_owned()
    }

    /// Decides a skip request against the current registry state.
    pub fn execute(&self, registry: &IdleDurations, guild_id: u64, channel_id: u64) -> (d:
        Directive)
        ensures
            skip_execute_post(registry@, guild_id, channel_id, d),
    {
        match registry.current_channel(guild_id) {
            None => Directive::Reply { message: "Not in a voice channel right now.".to_owned() },
            Some(c) => {
                if c != channel_id {
                    Directive::Reply {
                        message:
                            "Can't tell me what to do if you're not in the same voice channel!".to_owned(),
                    }
                } else {
                    Directive::PerformSkip { guild_id }
                }
            },
        }
    }
}

/// The reply of `languages`: the number of distinct language codes in the
/// catalog, then the codes themselves.
pub open spec fn spec_languages_summary(cat: Seq<(Seq<char>, VoiceInfoView)>) -> Seq<char> {
    spec_dec_str(spec_distinct_keys(cat).len()) + " languages available:\n"@ + spec_join_seq(
        spec_distinct_keys(cat),
        ", "@,
    )
}

/// What `languages` answers.
pub open spec fn languages_execute_post(cat: Seq<(Seq<char>, VoiceInfoView)>, d: Directive) -> bool {
    d matches Directive::Reply { message } && message@ == spec_languages_summary(cat)
}

/// The `languages` command.
pub struct LanguagesCommand;

impl LanguagesCommand {
    /// The name the command is registered under.
    pub fn get_name(&self) -> (r: String)
        ensures
            r@ == "languages"@,
    {
        "languages".to_owned()
    }

    /// Lists the language codes the catalog offers.
    pub fn execute(&self, voices: &Voices) -> (d: Directive)
        ensures
            languages_execute_post(voices@, d),
    {
        let langs = voices.languages();
        let mut message = u64_to_dec(langs.len() as u64);
        proof {
            assert(string_views(langs@).len() == langs@.len());
            assert((langs.len() as u64) as nat == spec_distinct_keys(voices@).len());
        }
        message.append(" languages available:\n");
        let listing = join_strings(&langs, ", ");
        message.append(listing.as_str());
        proof {
            assert(message@ =~= spec_languages_summary(voices@));
        }
        Directive::Reply { message }
    }
}

/// What `say` decides: a caller in another channel is turned away; a
/// missing or empty message is rejected before anything else happens; a
/// language and gender no voice matches is rejected next; otherwise the
/// shell gets a full plan — including whether an implicit join of the
/// caller's channel must come first. The registry is unchanged until the
/// plan's join is carried out.
pub open spec fn say_execute_post(
    m: Map<u64, SessionView>,
    cat: Seq<(Seq<char>, VoiceInfoView)>,
    opts: Seq<crate::say::CommandOptionView>,
    guild_id: u64,
    channel_id: u64,
    d: Directive,
) -> bool {
    let message = spec_option_value(opts, "message"@);
    let language = spec_option_value(opts, "language"@);
    let gender = spec_option_value(opts, "gender"@);
    if m.contains_key(guild_id) && m[guild_id].channel_id != channel_id {
        d matches Directive::Reply { message: reply } && reply@ == msg_not_in_same()
    } else if !message_acceptable(message) {
        d matches Directive::Reply { message: reply } && reply@ == msg_empty_message()
    } else if available_voices(cat, language, gender).len() == 0 {
        d matches Directive::Reply { message: reply } && reply@ == msg_no_matching_voices()
    } else {
        d matches Directive::PerformSay { plan } && {
            &&& plan.guild_id == guild_id
            &&& plan.channel_id == channel_id
            &&& plan.needs_join == !m.contains_key(guild_id)
            &&& plan.message@ == message->0
            &&& plan.request.language_code@ == spec_language_or_default(language)
            &&& available_voices(cat, language, gender).contains(plan.request.voice_name@)
            &&& plan.request.ssml@ == spec_ssml_wrap(message->0)
        }
    }
}

/// Law: a say decided for a guild without a session plans an implicit join,
/// and completing that join connects the guild to the caller's own channel
/// with a fresh idle counter.
pub proof fn lemma_say_implicit_join(
    m: Map<u64, SessionView>,
    cat: Seq<(Seq<char>, VoiceInfoView)>,
    opts: Seq<crate::say::CommandOptionView>,
    guild_id: u64,
    channel_id: u64,
    d: Directive,
)
    requires
        !m.contains_key(guild_id),
        say_execute_post(m, cat, opts, guild_id, channel_id, d),
        d is PerformSay,
    ensures
        ({
            let plan = d->plan;
            let (m1, r) = spec_join(m, plan.guild_id, plan.channel_id);
            &&& plan.needs_join
            &&& r is Ok
            &&& m1.contains_key(guild_id)
            &&& m1[guild_id].channel_id == channel_id
            &&& m1[guild_id].idle_minutes == 0
        }),
{
}

/// The `say` command.
pub struct SayCommand;

impl SayCommand {
    /// The name the command is registered under.
    pub fn get_name(&self) -> (r: String)
        ensures
            r@ == "say"@,
    {
        "say".to_owned()
    }

    /// Decides a say request: screens the caller's channel, extracts and
    /// validates the options, and builds the synthesis plan.
    pub fn execute(
        &self,
        registry: &IdleDurations,
        voices: &Voices,
        options: &Vec<CommandOption>,
        guild_id: u64,
        channel_id: u64,
    ) -> (d: Directive)
        ensures
            say_execute_post(registry@, voices@, option_views(options@), guild_id, channel_id, d),
    {
        let needs_join = match registry.current_channel(guild_id) {
            Some(c) => {
                if c != channel_id {
                    return Directive::Reply {
                        message:
                            "Can't tell me what to do if you're not in the same voice channel!".to_owned(),
                    };
                }
                false
            },
            None => true,
        };
        let message = extract_option(options, "message");
        let language = extract_option(options, "language");
        let gender = extract_option(options, "gender");
        let builder = TtsService;
        match builder.build_request(voices, &message, &language, &gender) {
            Ok(request) => {
                let message_text = match message {
                    Some(m) => m,
                    None => String::new(),
                };
                Directive::PerformSay {
                    plan: SayPlan {
                        guild_id,
                        channel_id,
                        needs_join,
                        message: message_text,
                        request,
                    },
                }
            },
            Err(SayError::EmptyMessage) => Directive::Reply {
                message: "Must supply a string with at least one character".to_owned(),
            },
            Err(SayError::NoMatchingVoices) => Directive::Reply {
                message: "No voices found for this language and gender!".to_owned(),
            },
        }
    }
}

/// What one dispatched interaction does, whatever the command: commands from
/// outside a guild, or from a caller in no voice channel, are turned away
/// before any lookup; an unknown name gets the generic failure; a known one
/// is decided by its command's own rule.
pub open spec fn dispatch_post(
    cmds: Seq<(Seq<char>, CommandKind)>,
    pre: Map<u64, SessionView>,
    post: Map<u64, SessionView>,
    cat: Seq<(Seq<char>, VoiceInfoView)>,
    name: Seq<char>,
    opts: Seq<crate::say::CommandOptionView>,
    guild_id: Option<u64>,
    caller_channel: Option<u64>,
    d: Directive,
) -> bool {
    if guild_id is None {
        post == pre && (d matches Directive::Reply { message } && message@ == msg_non_guild())
    } else if caller_channel is None {
        post == pre && (d matches Directive::Reply { message } && message@ == msg_not_in_voice())
    } else {
        let g = guild_id->0;
        let c = caller_channel->0;
        match spec_lookup(cmds, name) {
            None => post == pre && (d matches Directive::Reply { message } && message@
                == msg_generic_error()),
            Some(CommandKind::Join) => post == pre && join_execute_post(pre, g, c, d),
            Some(CommandKind::Leave) => leave_execute_post(pre, post, g, c, d),
            Some(CommandKind::Skip) => post == pre && skip_execute_post(pre, g, c, d),
            Some(CommandKind::Say) => post == pre && say_execute_post(pre, cat, opts, g, c, d),
            Some(CommandKind::Languages) => post == pre && languages_execute_post(cat, d),
        }
    }
}

/// The event handler the chat platform drives: its configuration, and the
/// dispatch of one incoming interaction.
pub struct ApplicationCommandHandler {
    pub prefix: String,
    pub scope: CommandScope,
}

impl ApplicationCommandHandler {
    /// Screens and dispatches one incoming command interaction.
    pub fn handle_interaction(
        &self,
        commands: &CommandsMap,
        registry: &mut IdleDurations,
        voices: &Voices,
        guild_id: Option<u64>,
        caller_channel: Option<u64>,
        command_name: &str,
        options: &Vec<CommandOption>,
    ) -> (d: Directive)
        ensures
            dispatch_post(
                commands@,
                old(registry)@,
                final(registry)@,
                voices@,
                command_name@,
                option_views(options@),
                guild_id,
                caller_channel,
                d,
            ),
    {
        let g = match guild_id {
            Some(g) => g,
            None => {
                return Directive::Reply {
                    message: "Can't call this from a non-guild context".to_owned(),
                };
            },
        };
        let c = match caller_channel {
            Some(c) => c,
            None => {
                return Directive::Reply {
                    message:
                        "Can't tell me what to do if you're not in a voice channel!".to_owned(),
                };
            },
        };
        match commands.lookup(command_name) {
            None => Directive::Reply { message: "Error completing interaction.".to_owned() },
            Some(CommandKind::Join) => JoinCommand.execute(registry, g, c),
            Some(CommandKind::Leave) => LeaveCommand.execute(registry, g, c),
            Some(CommandKind::Skip) => SkipCommand.execute(registry, g, c),
            Some(CommandKind::Say) => SayCommand.execute(registry, voices, options, g, c),
            Some(CommandKind::Languages) => LanguagesCommand.execute(voices),
        }
    }
}

/// The per-guild registration targets a ready event yields.
pub enum RegistrationPlan {
    /// Register the commands once, globally.
    Global,
    /// Register the commands for each of these guilds.
    PerGuild { guild_ids: Vec<u64> },
}

/// The identifiers of the available guilds, in the given order.
pub open spec fn spec_available_guilds(guilds: Seq<(u64, bool)>) -> Seq<u64>
    decreases guilds.len(),
{
    if guilds.len() == 0 {
        Seq::empty()
    } else {
        let prefix = spec_available_guilds(guilds.drop_last());
        if guilds.last().1 {
            prefix
        } else {
            prefix.push(guilds.last().0)
        }
    }
}

impl ApplicationCommandHandler {
    /// Decides, from the configured scope and the guilds the ready event
    /// names (each with its unavailability flag), where the shell must
    /// register the commands.
    pub fn registration_targets(&self, guilds: &Vec<(u64, bool)>) -> (r: RegistrationPlan)
        ensures
            self.scope is Global ==> r is Global,
            self.scope is Guild ==> (r matches RegistrationPlan::PerGuild { guild_ids } && guild_ids@
                == spec_available_guilds(guilds@)),
    {
        match self.scope {
            CommandScope::Global => RegistrationPlan::Global,
            CommandScope::Guild => {
                let mut guild_ids: Vec<u64> = Vec::new();
                let n = guilds.len();
                let mut i: usize = 0;
                proof {
                    assert(guilds@.take(0) =~= Seq::<(u64, bool)>::empty());
                }
                while i < n
                    invariant
                        i <= n,
                        n == guilds@.len(),
                        guild_ids@ == spec_available_guilds(guilds@.take(i as int)),
                    decreases n - i,
                {
                    proof {
                        assert(guilds@.take(i + 1).drop_last() =~= guilds@.take(i as int));
                        assert(guilds@.take(i + 1).last() == guilds@[i as int]);
                    }
                    if !guilds[i].1 {
                        guild_ids.push(guilds[i].0);
                    }
                    i = i + 1;
                }
                proof {
                    assert(guilds@.take(n as int) =~= guilds@);
                }
                RegistrationPlan::PerGuild { guild_ids }
            },
        }
    }
}

} // verus!
