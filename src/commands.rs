//! Chat-command bindings: the command kinds, their permission levels, and the
//! table that binds each kind to a trigger text.

use vstd::prelude::*;

use crate::text::{is_ascii_text, lemma_lowercase_fixed, lowercase, lowercase_text};

verus! {

/// A chat command that the bot understands.
#[derive(Clone, Copy, Debug, PartialEq, Eq, Hash, Structural)]
pub enum BotCommand {
    Bitrate,
    Network,
    Poweroff,
    Restart,
    Sensor,
    Start,
    Stats,
    Stop,
}

/// Who may invoke a command.
#[derive(Clone, Copy, Debug, PartialEq, Eq, Structural)]
pub enum Permission {
    Broadcaster,
    Moderator,
    Vip,
    Public,
}

/// The trigger text of a command and who may use it.
#[derive(Clone, Debug)]
pub struct CommandInformation {
    pub command: String,
    pub permission: Permission,
}

/// Mathematical form of a [`CommandInformation`].
pub struct CommandView {
    pub command: Seq<char>,
    pub permission: Permission,
}

impl View for CommandInformation {
    type V = CommandView;

    open spec fn view(&self) -> CommandView {
        CommandView { command: self.command@, permission: self.permission }
    }
}

/// The set of all command kinds.
pub open spec fn all_commands() -> Set<BotCommand> {
    set![
        BotCommand::Bitrate,
        BotCommand::Network,
        BotCommand::Poweroff,
        BotCommand::Restart,
        BotCommand::Sensor,
        BotCommand::Start,
        BotCommand::Stats,
        BotCommand::Stop,
    ]
}

/// The binding that a command gets when the configuration has none for it.
pub open spec fn default_command(c: BotCommand) -> CommandView {
    match c {
        BotCommand::Start => CommandView { command: "!bbstart"@, permission: Permission::Broadcaster },
        BotCommand::Stop => CommandView { command: "!bbstop"@, permission: Permission::Broadcaster },
        BotCommand::Stats => CommandView { command: "!bbs"@, permission: Permission::Public },
        BotCommand::Restart => CommandView { command: "!bbrs"@, permission: Permission::Broadcaster },
        BotCommand::Poweroff => CommandView { command: "!bbpo"@, permission: Permission::Broadcaster },
        BotCommand::Bitrate => CommandView { command: "!bbb"@, permission: Permission::Broadcaster },
        BotCommand::Sensor => CommandView { command: "!bbsensor"@, permission: Permission::Public },
        BotCommand::Network => CommandView { command: "!bbt"@, permission: Permission::Broadcaster },
    }
}

/// `m` with the default binding added for every command kind it lacks;
/// bindings already in `m` are kept.
pub open spec fn with_defaults(m: Map<BotCommand, CommandView>) -> Map<BotCommand, CommandView> {
    Map::new(
        |c: BotCommand| true,
        |c: BotCommand| if m.contains_key(c) { m[c] } else { default_command(c) },
    )
}

/// Builds the default binding of a command kind.
pub fn default_command_information(c: BotCommand) -> (r: CommandInformation)
    ensures
        r@ == default_command(c),
{
    match c {
        BotCommand::Start => CommandInformation { command: "!bbstart".to_owned(), permission: Permission::Broadcaster },
        BotCommand::Stop => CommandInformation { command: "!bbstop".to_owned(), permission: Permission::Broadcaster },
        BotCommand::Stats => CommandInformation { command: "!bbs".to_owned(), permission: Permission::Public },
        BotCommand::Restart => CommandInformation { command: "!bbrs".to_owned(), permission: Permission::Broadcaster },
        BotCommand::Poweroff => CommandInformation { command: "!bbpo".to_owned(), permission: Permission::Broadcaster },
        BotCommand::Bitrate => CommandInformation { command: "!bbb".to_owned(), permission: Permission::Broadcaster },
        BotCommand::Sensor => CommandInformation { command: "!bbsensor".to_owned(), permission: Permission::Public },
        BotCommand::Network => CommandInformation { command: "!bbt".to_owned(), permission: Permission::Broadcaster },
    }
}

/// A binding with its trigger text lowercased.
pub open spec fn lowercased_command(v: CommandView) -> CommandView {
    CommandView { command: lowercase_text(v.command), permission: v.permission }
}

/// `m` with the trigger text of every binding lowercased.
pub open spec fn lowercased_triggers(m: Map<BotCommand, CommandView>) -> Map<BotCommand, CommandView> {
    m.map_values(|v: CommandView| lowercased_command(v))
}

/// The binding in `slot`, if any, with its trigger text lowercased.
fn lowercase_slot(slot: &Option<CommandInformation>) -> (r: Option<CommandInformation>)
    ensures
        r.is_some() == slot.is_some(),
        r.is_some() ==> r.unwrap()@ == lowercased_command(slot.unwrap()@),
{
    match slot {
        Some(info) => Some(CommandInformation { command: lowercase(&info.command), permission: info.permission }),
        None => None,
    }
}

/// A table from command kind to binding, with at most one binding per kind.
#[derive(Clone, Debug)]
pub struct CommandMap {
    bitrate: Option<CommandInformation>,
    network: Option<CommandInformation>,
    poweroff: Option<CommandInformation>,
    restart: Option<CommandInformation>,
    sensor: Option<CommandInformation>,
    start: Option<CommandInformation>,
    stats: Option<CommandInformation>,
    stop: Option<CommandInformation>,
}

impl CommandMap {
    /// The slot that holds the binding of `c`.
    pub closed spec fn slot(&self, c: BotCommand) -> Option<CommandInformation> {
        match c {
            BotCommand::Bitrate => self.bitrate,
            BotCommand::Network => self.network,
            BotCommand::Poweroff => self.poweroff,
            BotCommand::Restart => self.restart,
            BotCommand::Sensor => self.sensor,
            BotCommand::Start => self.start,
            BotCommand::Stats => self.stats,
            BotCommand::Stop => self.stop,
        }
    }

    /// An empty table.
    pub fn new() -> (r: CommandMap)
        ensures
            r@ == Map::<BotCommand, CommandView>::empty(),
    {
        let r = CommandMap {
            bitrate: None,
            network: None,
            poweroff: None,
            restart: None,
            sensor: None,
            start: None,
            stats: None,
            stop: None,
        };
        assert(r@ =~= Map::<BotCommand, CommandView>::empty());
        r
    }

    /// The binding of `c`, if there is one.
    pub fn get(&self, c: BotCommand) -> (r: Option<&CommandInformation>)
        ensures
            r.is_some() == self@.contains_key(c),
            r.is_some() ==> r.unwrap()@ == self@[c],
    {
        let slot = match c {
            BotCommand::Bitrate => &self.bitrate,
            BotCommand::Network => &self.network,
            BotCommand::Poweroff => &self.poweroff,
            BotCommand::Restart => &self.restart,
            BotCommand::Sensor => &self.sensor,
            BotCommand::Start => &self.start,
            BotCommand::Stats => &self.stats,
            BotCommand::Stop => &self.stop,
        };
        slot.as_ref()
    }

    /// Whether `c` has a binding.
    pub fn contains_key(&self, c: BotCommand) -> (r: bool)
        ensures
            r == self@.contains_key(c),
    {
        self.get(c).is_some()
    }

    /// Binds `c` to `info`, replacing any binding it had.
    pub fn insert(&mut self, c: BotCommand, info: CommandInformation)
        ensures
            final(self)@ == old(self)@.insert(c, info@),
    {
        let slot = Some(info);
        match c {
            BotCommand::Bitrate => self.bitrate = slot,
            BotCommand::Network => self.network = slot,
            BotCommand::Poweroff => self.poweroff = slot,
            BotCommand::Restart => self.restart = slot,
            BotCommand::Sensor => self.sensor = slot,
            BotCommand::Start => self.start = slot,
            BotCommand::Stats => self.stats = slot,
            BotCommand::Stop => self.stop = slot,
        }
        assert(self@ =~= old(self)@.insert(c, info@));
    }

    /// Binds `c` to `info` only where `c` has no binding yet.
    pub fn insert_if_absent(&mut self, c: BotCommand, info: CommandInformation)
        ensures
            final(self)@ == if old(self)@.contains_key(c) {
                old(self)@
            } else {
                old(self)@.insert(c, info@)
            },
    {
        if !self.contains_key(c) {
            self.insert(c, info);
        }
    }

    /// Lowercases the trigger text of every binding, keeping its permission.
    pub fn lowercase_triggers(&mut self)
        ensures
            final(self)@ == lowercased_triggers(old(self)@),
    {
        self.bitrate = lowercase_slot(&self.bitrate);
        self.network = lowercase_slot(&self.network);
        self.poweroff = lowercase_slot(&self.poweroff);
        self.restart = lowercase_slot(&self.restart);
        self.sensor = lowercase_slot(&self.sensor);
        self.start = lowercase_slot(&self.start);
        self.stats = lowercase_slot(&self.stats);
        self.stop = lowercase_slot(&self.stop);
        assert(self@ =~= lowercased_triggers(old(self)@));
    }
}

impl View for CommandMap {
    type V = Map<BotCommand, CommandView>;

    closed spec fn view(&self) -> Map<BotCommand, CommandView> {
        Map::new(|c: BotCommand| self.slot(c).is_some(), |c: BotCommand| self.slot(c).unwrap()@)
    }
}

/// Adds the default binding of every command kind that `commands` lacks,
/// keeping the bindings it has.
pub fn default_chat_commands(commands: &mut CommandMap)
    ensures
        final(commands)@ == with_defaults(old(commands)@),
{
    commands.insert_if_absent(BotCommand::Start, default_command_information(BotCommand::Start));
    commands.insert_if_absent(BotCommand::Stop, default_command_information(BotCommand::Stop));
    commands.insert_if_absent(BotCommand::Stats, default_command_information(BotCommand::Stats));
    commands.insert_if_absent(BotCommand::Restart, default_command_information(BotCommand::Restart));
    commands.insert_if_absent(BotCommand::Poweroff, default_command_information(BotCommand::Poweroff));
    commands.insert_if_absent(BotCommand::Bitrate, default_command_information(BotCommand::Bitrate));
    commands.insert_if_absent(BotCommand::Sensor, default_command_information(BotCommand::Sensor));
    commands.insert_if_absent(BotCommand::Network, default_command_information(BotCommand::Network));
    assert(commands@ =~= with_defaults(old(commands)@));
}

/// Adding the defaults a second time changes nothing.
pub proof fn lemma_defaults_idempotent(m: Map<BotCommand, CommandView>)
    ensures
        with_defaults(with_defaults(m)) == with_defaults(m),
{
    assert(with_defaults(with_defaults(m)) =~= with_defaults(m));
}

/// After the defaults are added, the table binds exactly the eight command
/// kinds, whatever it held before.
pub proof fn lemma_defaults_complete(m: Map<BotCommand, CommandView>)
    ensures
        with_defaults(m).dom() == all_commands(),
        all_commands().len() == 8,
{
    assert forall|c: BotCommand| #[trigger] all_commands().contains(c) by {
        match c {
            BotCommand::Bitrate => {},
            BotCommand::Network => {},
            BotCommand::Poweroff => {},
            BotCommand::Restart => {},
            BotCommand::Sensor => {},
            BotCommand::Start => {},
            BotCommand::Stats => {},
            BotCommand::Stop => {},
        }
    }
    assert(with_defaults(m).dom() =~= all_commands());
    assert(all_commands().len() == 8);
}

/// A binding that the table already holds survives the defaults unchanged,
/// trigger and permission alike.
pub proof fn lemma_defaults_keep_existing(m: Map<BotCommand, CommandView>, c: BotCommand)
    requires
        m.contains_key(c),
    ensures
        with_defaults(m).contains_key(c),
        with_defaults(m)[c] == m[c],
{
}

/// Every default trigger is ASCII text without uppercase letters, so
/// lowercasing leaves it as it is.
pub proof fn lemma_default_trigger_lowercase(c: BotCommand)
    ensures
        lowercase_text(default_command(c).command) == default_command(c).command,
{
    let t = default_command(c).command;
    match c {
        BotCommand::Start => reveal_strlit("!bbstart"),
        BotCommand::Stop => reveal_strlit("!bbstop"),
        BotCommand::Stats => reveal_strlit("!bbs"),
        BotCommand::Restart => reveal_strlit("!bbrs"),
        BotCommand::Poweroff => reveal_strlit("!bbpo"),
        BotCommand::Bitrate => reveal_strlit("!bbb"),
        BotCommand::Sensor => reveal_strlit("!bbsensor"),
        BotCommand::Network => reveal_strlit("!bbt"),
    }
    assert(is_ascii_text(t));
    lemma_lowercase_fixed(t);
}

} // verus!
