//! The settings record and its normalization.

use vstd::prelude::*;

use crate::commands::{
    default_chat_commands, default_command, lemma_default_trigger_lowercase, lowercased_command,
    lowercased_triggers, with_defaults, BotCommand, CommandMap, CommandView,
};
use crate::text::{is_ascii_text, lemma_ascii_lowercase_idempotent, lowercase, lowercase_text};

verus! {

/// Which status reports the bot sends to chat.
#[derive(Clone, Copy, Debug, PartialEq, Eq, Structural)]
pub struct Monitor {
    pub modems: bool,
    pub notifications: bool,
}

impl Default for Monitor {
    /// Both reports switched on.
    fn default() -> (r: Monitor)
        ensures
            r.modems,
            r.notifications,
    {
        Monitor { modems: true, notifications: true }
    }
}

/// The encoder that the bot controls.
#[derive(Clone, Debug)]
pub struct Belabox {
    /// Token that addresses the encoder.
    pub remote_key: String,
    /// Display names of network interfaces, as (interface, display name) pairs.
    pub custom_interface_name: Vec<(String, String)>,
    pub monitor: Monitor,
}

/// The chat account of the bot and the channel it serves.
#[derive(Clone, Debug)]
pub struct Twitch {
    pub bot_username: String,
    pub bot_oauth: String,
    pub channel: String,
    pub admins: Vec<String>,
}

/// The whole configuration record.
#[derive(Clone, Debug)]
pub struct Settings {
    pub belabox: Belabox,
    pub twitch: Twitch,
    pub commands: CommandMap,
}

/// Mathematical form of a [`Belabox`].
pub struct BelaboxView {
    pub remote_key: Seq<char>,
    pub custom_interface_name: Seq<(Seq<char>, Seq<char>)>,
    pub monitor: Monitor,
}

/// Mathematical form of a [`Twitch`].
pub struct TwitchView {
    pub bot_username: Seq<char>,
    pub bot_oauth: Seq<char>,
    pub channel: Seq<char>,
    pub admins: Seq<Seq<char>>,
}

/// Mathematical form of a [`Settings`].
pub struct SettingsView {
    pub belabox: BelaboxView,
    pub twitch: TwitchView,
    pub commands: Map<BotCommand, CommandView>,
}

/// The texts of a sequence of strings.
pub open spec fn texts(v: Seq<String>) -> Seq<Seq<char>> {
    v.map_values(|a: String| a@)
}

impl View for Belabox {
    type V = BelaboxView;

    open spec fn view(&self) -> BelaboxView {
        BelaboxView {
            remote_key: self.remote_key@,
            custom_interface_name: self.custom_interface_name@.map_values(
                |p: (String, String)| (p.0@, p.1@),
            ),
            monitor: self.monitor,
        }
    }
}

impl View for Twitch {
    type V = TwitchView;

    open spec fn view(&self) -> TwitchView {
        TwitchView {
            bot_username: self.bot_username@,
            bot_oauth: self.bot_oauth@,
            channel: self.channel@,
            admins: texts(self.admins@),
        }
    }
}

impl View for Settings {
    type V = SettingsView;

    open spec fn view(&self) -> SettingsView {
        SettingsView { belabox: self.belabox@, twitch: self.twitch@, commands: self.commands@ }
    }
}

/// Every text of `v` lowercased.
pub open spec fn lowercase_all(v: Seq<Seq<char>>) -> Seq<Seq<char>> {
    v.map_values(|a: Seq<char>| lowercase_text(a))
}

/// `s` with the channel, the bot's name and token, every admin and every
/// command trigger lowercased; everything else as in `s`.
pub open spec fn normalized(s: SettingsView) -> SettingsView {
    SettingsView {
        belabox: s.belabox,
        twitch: TwitchView {
            bot_username: lowercase_text(s.twitch.bot_username),
            bot_oauth: lowercase_text(s.twitch.bot_oauth),
            channel: lowercase_text(s.twitch.channel),
            admins: lowercase_all(s.twitch.admins),
        },
        commands: lowercased_triggers(s.commands),
    }
}

/// `s` with the default binding added for every command kind it lacks.
pub open spec fn defaulted(s: SettingsView) -> SettingsView {
    SettingsView { belabox: s.belabox, twitch: s.twitch, commands: with_defaults(s.commands) }
}

/// Lowercases the fields of `settings` that must always be lowercase.
pub fn lowercase_settings(settings: &mut Settings)
    ensures
        final(settings)@ == normalized(old(settings)@),
{
    let channel = lowercase(&settings.twitch.channel);
    settings.twitch.channel = channel;
    let bot_oauth = lowercase(&settings.twitch.bot_oauth);
    settings.twitch.bot_oauth = bot_oauth;
    let bot_username = lowercase(&settings.twitch.bot_username);
    settings.twitch.bot_username = bot_username;

    let mut admins: Vec<String> = Vec::new();
    let n: usize = settings.twitch.admins.len();
    for i in 0..n
        invariant
            n == settings.twitch.admins.len(),
            settings.twitch.admins@ == old(settings).twitch.admins@,
            admins@.len() == i,
            forall|j: int| 0 <= j < i ==> admins@[j]@ == lowercase_text(settings.twitch.admins@[j]@),
    {
        admins.push(lowercase(&settings.twitch.admins[i]));
    }
    assert(texts(admins@) =~= lowercase_all(texts(old(settings).twitch.admins@)));
    settings.twitch.admins = admins;

    settings.commands.lowercase_triggers();
    assert(settings.twitch@ == normalized(old(settings)@).twitch);
}

/// Brings a freshly read record into its settled form: lowercases it, then
/// adds the default binding of every command kind it lacks.
pub fn normalize_and_default(settings: &mut Settings)
    ensures
        final(settings)@ == defaulted(normalized(old(settings)@)),
{
    lowercase_settings(settings);
    default_chat_commands(&mut settings.commands);
}

/// Whether every text that normalization lowercases is ASCII in `s`.
pub open spec fn normalized_fields_ascii(s: SettingsView) -> bool {
    &&& is_ascii_text(s.twitch.bot_username)
    &&& is_ascii_text(s.twitch.bot_oauth)
    &&& is_ascii_text(s.twitch.channel)
    &&& forall|i: int| 0 <= i < s.twitch.admins.len() ==> is_ascii_text(#[trigger] s.twitch.admins[i])
    &&& forall|c: BotCommand| #[trigger] s.commands.contains_key(c) ==> is_ascii_text(s.commands[c].command)
}

/// For a record whose lowercased texts are ASCII, normalizing twice gives
/// what normalizing once gives.
pub proof fn lemma_normalize_idempotent_ascii(s: SettingsView)
    requires
        normalized_fields_ascii(s),
    ensures
        normalized(normalized(s)) == normalized(s),
{
    let n = normalized(s);
    lemma_ascii_lowercase_idempotent(s.twitch.bot_username);
    lemma_ascii_lowercase_idempotent(s.twitch.bot_oauth);
    lemma_ascii_lowercase_idempotent(s.twitch.channel);
    assert forall|i: int| 0 <= i < s.twitch.admins.len() implies lowercase_text(
        n.twitch.admins[i],
    ) == n.twitch.admins[i] by {
        lemma_ascii_lowercase_idempotent(s.twitch.admins[i]);
    }
    assert(lowercase_all(n.twitch.admins) =~= n.twitch.admins);
    assert forall|c: BotCommand| #[trigger] n.commands.contains_key(c) implies lowercase_text(
        n.commands[c].command,
    ) == n.commands[c].command by {
        lemma_ascii_lowercase_idempotent(s.commands[c].command);
    }
    assert(lowercased_triggers(n.commands) =~= n.commands);
    assert(normalized(n).twitch == n.twitch);
}

/// Lowercasing and then adding the default bindings gives the same record as
/// adding the default bindings and then lowercasing.
pub proof fn lemma_normalize_default_commute(s: SettingsView)
    ensures
        defaulted(normalized(s)) == normalized(defaulted(s)),
{
    assert forall|c: BotCommand| !s.commands.contains_key(c) implies lowercased_command(
        default_command(c),
    ) == default_command(c) by {
        lemma_default_trigger_lowercase(c);
    }
    assert(with_defaults(lowercased_triggers(s.commands)) =~= lowercased_triggers(
        with_defaults(s.commands),
    ));
}

} // verus!
