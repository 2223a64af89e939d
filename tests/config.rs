use belabox_config::commands::{
    default_chat_commands, default_command_information, BotCommand, CommandInformation, CommandMap,
    Permission,
};
use belabox_config::settings::{
    lowercase_settings, normalize_and_default, Belabox, Monitor, Settings, Twitch,
};
use belabox_config::setup::{remote_key_from_url, ConfigError};

const ALL: [BotCommand; 8] = [
    BotCommand::Bitrate,
    BotCommand::Network,
    BotCommand::Poweroff,
    BotCommand::Restart,
    BotCommand::Sensor,
    BotCommand::Start,
    BotCommand::Stats,
    BotCommand::Stop,
];

fn info(command: &str, permission: Permission) -> CommandInformation {
    CommandInformation { command: command.to_string(), permission }
}

fn settings(channel: &str, admins: &[&str], commands: CommandMap) -> Settings {
    Settings {
        belabox: Belabox {
            remote_key: "Key".to_string(),
            custom_interface_name: vec![("eth0".to_string(), "Wired".to_string())],
            monitor: Monitor { modems: false, notifications: true },
        },
        twitch: Twitch {
            bot_username: "BotUser".to_string(),
            bot_oauth: "OAuth:ABC".to_string(),
            channel: channel.to_string(),
            admins: admins.iter().map(|a| a.to_string()).collect(),
        },
        commands,
    }
}

fn binding(m: &CommandMap, c: BotCommand) -> Option<(String, Permission)> {
    m.get(c).map(|i| (i.command.clone(), i.permission))
}

fn same_commands(a: &CommandMap, b: &CommandMap) -> bool {
    ALL.iter().all(|c| binding(a, *c) == binding(b, *c))
}

fn same_settings(a: &Settings, b: &Settings) -> bool {
    a.belabox.remote_key == b.belabox.remote_key
        && a.belabox.custom_interface_name == b.belabox.custom_interface_name
        && a.belabox.monitor == b.belabox.monitor
        && a.twitch.bot_username == b.twitch.bot_username
        && a.twitch.bot_oauth == b.twitch.bot_oauth
        && a.twitch.channel == b.twitch.channel
        && a.twitch.admins == b.twitch.admins
        && same_commands(&a.commands, &b.commands)
}

#[test]
fn default_catalogue_from_empty() {
    let mut m = CommandMap::new();
    default_chat_commands(&mut m);
    let expected = [
        (BotCommand::Start, "!bbstart", Permission::Broadcaster),
        (BotCommand::Stop, "!bbstop", Permission::Broadcaster),
        (BotCommand::Stats, "!bbs", Permission::Public),
        (BotCommand::Restart, "!bbrs", Permission::Broadcaster),
        (BotCommand::Poweroff, "!bbpo", Permission::Broadcaster),
        (BotCommand::Bitrate, "!bbb", Permission::Broadcaster),
        (BotCommand::Sensor, "!bbsensor", Permission::Public),
        (BotCommand::Network, "!bbt", Permission::Broadcaster),
    ];
    for (c, trigger, permission) in expected {
        assert_eq!(binding(&m, c), Some((trigger.to_string(), permission)));
    }
}

#[test]
fn default_binding_of_each_kind() {
    let i = default_command_information(BotCommand::Sensor);
    assert_eq!(i.command, "!bbsensor");
    assert_eq!(i.permission, Permission::Public);
    let i = default_command_information(BotCommand::Network);
    assert_eq!(i.command, "!bbt");
    assert_eq!(i.permission, Permission::Broadcaster);
}

#[test]
fn empty_table_binds_nothing() {
    let m = CommandMap::new();
    for c in ALL {
        assert!(!m.contains_key(c));
        assert!(m.get(c).is_none());
    }
}

#[test]
fn defaults_complete_a_partial_table() {
    let mut m = CommandMap::new();
    m.insert(BotCommand::Stats, info("!status", Permission::Vip));
    m.insert(BotCommand::Stop, info("!halt", Permission::Moderator));
    default_chat_commands(&mut m);
    for c in ALL {
        assert!(m.contains_key(c));
    }
    assert_eq!(binding(&m, BotCommand::Stats), Some(("!status".to_string(), Permission::Vip)));
    assert_eq!(binding(&m, BotCommand::Stop), Some(("!halt".to_string(), Permission::Moderator)));
    assert_eq!(binding(&m, BotCommand::Start), Some(("!bbstart".to_string(), Permission::Broadcaster)));
}

#[test]
fn defaults_keep_custom_start() {
    let mut m = CommandMap::new();
    m.insert(BotCommand::Start, info("!custom", Permission::Moderator));
    default_chat_commands(&mut m);
    assert_eq!(binding(&m, BotCommand::Start), Some(("!custom".to_string(), Permission::Moderator)));
}

#[test]
fn defaults_twice_same_as_once() {
    let mut once = CommandMap::new();
    once.insert(BotCommand::Bitrate, info("!rate", Permission::Public));
    default_chat_commands(&mut once);
    let mut twice = once.clone();
    default_chat_commands(&mut twice);
    assert!(same_commands(&once, &twice));
}

#[test]
fn insert_replaces_and_insert_if_absent_keeps() {
    let mut m = CommandMap::new();
    m.insert(BotCommand::Stats, info("!a", Permission::Public));
    m.insert(BotCommand::Stats, info("!b", Permission::Vip));
    assert_eq!(binding(&m, BotCommand::Stats), Some(("!b".to_string(), Permission::Vip)));
    m.insert_if_absent(BotCommand::Stats, info("!c", Permission::Public));
    assert_eq!(binding(&m, BotCommand::Stats), Some(("!b".to_string(), Permission::Vip)));
    m.insert_if_absent(BotCommand::Sensor, info("!d", Permission::Public));
    assert_eq!(binding(&m, BotCommand::Sensor), Some(("!d".to_string(), Permission::Public)));
}

#[test]
fn lowercases_channel_and_admins() {
    let mut s = settings("MyChannel", &["Foo", "BAR"], CommandMap::new());
    lowercase_settings(&mut s);
    assert_eq!(s.twitch.channel, "mychannel");
    assert_eq!(s.twitch.admins, vec!["foo".to_string(), "bar".to_string()]);
    assert_eq!(s.twitch.bot_username, "botuser");
    assert_eq!(s.twitch.bot_oauth, "oauth:abc");
}

#[test]
fn lowercasing_leaves_encoder_settings() {
    let mut s = settings("MyChannel", &[], CommandMap::new());
    lowercase_settings(&mut s);
    assert_eq!(s.belabox.remote_key, "Key");
    assert_eq!(s.belabox.custom_interface_name, vec![("eth0".to_string(), "Wired".to_string())]);
    assert_eq!(s.belabox.monitor, Monitor { modems: false, notifications: true });
}

#[test]
fn lowercases_command_triggers_keeping_permission() {
    let mut m = CommandMap::new();
    m.insert(BotCommand::Stats, info("!BBS", Permission::Vip));
    let mut s = settings("c", &[], m);
    lowercase_settings(&mut s);
    assert_eq!(binding(&s.commands, BotCommand::Stats), Some(("!bbs".to_string(), Permission::Vip)));
    assert!(!s.commands.contains_key(BotCommand::Start));
}

#[test]
fn lowercases_text_outside_ascii() {
    let mut s = settings("ÄÖÜChannel", &["ÉLAN"], CommandMap::new());
    lowercase_settings(&mut s);
    assert_eq!(s.twitch.channel, "äöüchannel");
    assert_eq!(s.twitch.admins, vec!["élan".to_string()]);
}

#[test]
fn lowercasing_twice_same_as_once() {
    let mut m = CommandMap::new();
    m.insert(BotCommand::Stop, info("!StOp", Permission::Broadcaster));
    let mut once = settings("MixedCase", &["Admin", "other"], m);
    lowercase_settings(&mut once);
    let mut twice = once.clone();
    lowercase_settings(&mut twice);
    assert!(same_settings(&once, &twice));
}

#[test]
fn settling_lowercases_then_fills_defaults() {
    let mut m = CommandMap::new();
    m.insert(BotCommand::Start, info("!GO", Permission::Moderator));
    let mut s = settings("MyChannel", &["Foo"], m);
    normalize_and_default(&mut s);
    assert_eq!(s.twitch.channel, "mychannel");
    assert_eq!(s.twitch.admins, vec!["foo".to_string()]);
    assert_eq!(binding(&s.commands, BotCommand::Start), Some(("!go".to_string(), Permission::Moderator)));
    assert_eq!(binding(&s.commands, BotCommand::Stop), Some(("!bbstop".to_string(), Permission::Broadcaster)));
    for c in ALL {
        assert!(s.commands.contains_key(c));
    }
}

#[test]
fn settling_matches_defaulting_then_lowercasing() {
    let mut m = CommandMap::new();
    m.insert(BotCommand::Sensor, info("!TEMP", Permission::Public));
    let record = settings("SomeOne", &["X"], m);
    let mut settled = record.clone();
    normalize_and_default(&mut settled);
    let mut other = record.clone();
    default_chat_commands(&mut other.commands);
    lowercase_settings(&mut other);
    assert!(same_settings(&settled, &other));
}

#[test]
fn remote_key_after_marker() {
    let key = remote_key_from_url("https://cloud.belabox.net/#/remote?key=AbC123");
    assert_eq!(key, Some("AbC123".to_string()));
}

#[test]
fn remote_key_missing_marker() {
    assert_eq!(remote_key_from_url("https://cloud.belabox.net/#/remote"), None);
    assert_eq!(remote_key_from_url(""), None);
    assert_eq!(remote_key_from_url("?key"), None);
}

#[test]
fn remote_key_edge_positions() {
    assert_eq!(remote_key_from_url("?key="), Some(String::new()));
    assert_eq!(remote_key_from_url("?key=k"), Some("k".to_string()));
    assert_eq!(remote_key_from_url("é?key=ü"), Some("ü".to_string()));
    assert_eq!(remote_key_from_url("a?key=b?key=c"), Some("b?key=c".to_string()));
}

#[test]
fn first_run_record() {
    let s = Settings::from_answers(
        "https://cloud.belabox.net/#/remote?key=Secret9",
        "MyBot".to_string(),
        "oauth:XYZ".to_string(),
        "MyChannel".to_string(),
    )
    .unwrap();
    assert_eq!(s.belabox.remote_key, "Secret9");
    assert_eq!(
        s.belabox.custom_interface_name,
        vec![
            ("eth0".to_string(), "eth0".to_string()),
            ("usb0".to_string(), "usb0".to_string()),
            ("wlan0".to_string(), "wlan0".to_string()),
        ]
    );
    assert_eq!(s.belabox.monitor, Monitor { modems: true, notifications: true });
    assert_eq!(s.twitch.bot_username, "MyBot");
    assert_eq!(s.twitch.bot_oauth, "oauth:XYZ");
    assert_eq!(s.twitch.channel, "MyChannel");
    assert!(s.twitch.admins.is_empty());
    let mut defaults = CommandMap::new();
    default_chat_commands(&mut defaults);
    assert!(same_commands(&s.commands, &defaults));
}

#[test]
fn first_run_rejects_url_without_key() {
    let r = Settings::from_answers(
        "https://cloud.belabox.net/#/remote",
        "bot".to_string(),
        "oauth".to_string(),
        "chan".to_string(),
    );
    assert!(matches!(r, Err(ConfigError::MalformedRemoteUrl)));
}

#[test]
fn monitor_defaults_on() {
    let m = Monitor::default();
    assert!(m.modems);
    assert!(m.notifications);
}
