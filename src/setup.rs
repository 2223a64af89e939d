//! What the first-run setup decides: the remote key in the pasted URL and the
//! record built from the answers.

use vstd::prelude::*;
use vstd::string::*;

use crate::commands::{default_chat_commands, with_defaults, BotCommand, CommandMap, CommandView};
use crate::settings::{Belabox, BelaboxView, Monitor, Settings, SettingsView, Twitch, TwitchView};

verus! {

/// Opaque form of `std::io::Error`, carried through errors unchanged.
#[verifier::external_type_specification]
#[verifier::external_body]
pub struct ExIoError(std::io::Error);

/// Opaque form of `serde_json::Error`, carried through errors unchanged.
#[verifier::external_type_specification]
#[verifier::external_body]
pub struct ExJsonError(serde_json::Error);

/// Why the configuration could not be loaded or created.
#[derive(Debug)]
pub enum ConfigError {
    /// Reading or writing the configuration file failed.
    Io(std::io::Error),
    /// The configuration file is not a valid settings document.
    Json(serde_json::Error),
    /// The pasted remote URL holds no `?key=` marker.
    MalformedRemoteUrl,
}

/// The marker that precedes the remote key in a remote URL.
pub open spec fn key_marker() -> Seq<char> {
    seq!['?', 'k', 'e', 'y', '=']
}

/// Whether the marker starts at position `i` of `s`.
pub open spec fn marker_at(s: Seq<char>, i: int) -> bool {
    0 <= i && i + 5 <= s.len() && s.subrange(i, i + 5) == key_marker()
}

/// Whether the first marker of `s` starts at position `i`.
pub open spec fn first_marker_at(s: Seq<char>, i: int) -> bool {
    marker_at(s, i) && forall|j: int| 0 <= j < i ==> !marker_at(s, j)
}

/// The text that follows the first marker of `url`, or `None` where `url`
/// holds no marker.
pub open spec fn remote_key_of(url: Seq<char>) -> Option<Seq<char>> {
    if exists|i: int| first_marker_at(url, i) {
        let i = choose|i: int| first_marker_at(url, i);
        Some(url.subrange(i + 5, url.len() as int))
    } else {
        None
    }
}

/// The record that the first-run setup builds from its answers.
pub open spec fn fresh_settings(
    remote_key: Seq<char>,
    bot_username: Seq<char>,
    bot_oauth: Seq<char>,
    channel: Seq<char>,
) -> SettingsView {
    SettingsView {
        belabox: BelaboxView {
            remote_key,
            custom_interface_name: seq![("eth0"@, "eth0"@), ("usb0"@, "usb0"@), ("wlan0"@, "wlan0"@)],
            monitor: Monitor { modems: true, notifications: true },
        },
        twitch: TwitchView { bot_username, bot_oauth, channel, admins: Seq::empty() },
        commands: with_defaults(Map::<BotCommand, CommandView>::empty()),
    }
}

proof fn lemma_first_marker_unique(s: Seq<char>, i: int, k: int)
    requires
        first_marker_at(s, i),
        first_marker_at(s, k),
    ensures
        i == k,
{
}

/// The remote key of a remote URL: the text after the first `?key=`.
pub fn remote_key_from_url(url: &str) -> (r: Option<String>)
    ensures
        r.is_some() == remote_key_of(url@).is_some(),
        r.is_some() ==> r.unwrap()@ == remote_key_of(url@).unwrap(),
{
    let n: usize = url.unicode_len();
    let mut i: usize = 0;
    while i < n && n - i >= 5
        invariant
            n == url@.len(),
            i <= n,
            forall|j: int| 0 <= j < i ==> !marker_at(url@, j),
        decreases n - i,
    {
        if url.get_char(i) == '?' && url.get_char(i + 1) == 'k' && url.get_char(i + 2) == 'e'
            && url.get_char(i + 3) == 'y' && url.get_char(i + 4) == '=' {
            assert(url@.subrange(i as int, i + 5) =~= key_marker());
            assert(first_marker_at(url@, i as int));
            proof {
                let k = choose|k: int| first_marker_at(url@, k);
                lemma_first_marker_unique(url@, i as int, k);
            }
            let key = url.substring_char(i + 5, n);
            return Some(key.to_owned());
        }
        assert(!marker_at(url@, i as int)) by {
            if marker_at(url@, i as int) {
                assert(url@.subrange(i as int, i + 5)[0] == '?');
                assert(url@.subrange(i as int, i + 5)[1] == 'k');
                assert(url@.subrange(i as int, i + 5)[2] == 'e');
                assert(url@.subrange(i as int, i + 5)[3] == 'y');
                assert(url@.subrange(i as int, i + 5)[4] == '=');
            }
        }
        i = i + 1;
    }
    None
}

impl Settings {
    /// Builds the record of a first run from the pasted remote URL and the
    /// chat account details: the remote key is the text after `?key=`, the
    /// interfaces `eth0`, `usb0` and `wlan0` keep their own names, both status
    /// reports are on, there are no admins, and every command kind has its
    /// default binding. Fails where the URL holds no `?key=`.
    pub fn from_answers(
        remote_url: &str,
        bot_username: String,
        bot_oauth: String,
        channel: String,
    ) -> (r: Result<Settings, ConfigError>)
        ensures
            r.is_err() == remote_key_of(remote_url@).is_none(),
            r.is_err() ==> r matches Err(ConfigError::MalformedRemoteUrl),
            r.is_ok() ==> r.unwrap()@ == fresh_settings(
                remote_key_of(remote_url@).unwrap(),
                bot_username@,
                bot_oauth@,
                channel@,
            ),
    {
        let remote_key = match remote_key_from_url(remote_url) {
            Some(k) => k,
            None => return Err(ConfigError::MalformedRemoteUrl),
        };
        let mut custom_interface_name: Vec<(String, String)> = Vec::new();
        custom_interface_name.push(("eth0".to_owned(), "eth0".to_owned()));
        custom_interface_name.push(("usb0".to_owned(), "usb0".to_owned()));
        custom_interface_name.push(("wlan0".to_owned(), "wlan0".to_owned()));
        let belabox = Belabox { remote_key, custom_interface_name, monitor: Monitor::default() };
        let twitch = Twitch { bot_username, bot_oauth, channel, admins: Vec::new() };
        let mut commands = CommandMap::new();
        default_chat_commands(&mut commands);
        let settings = Settings { belabox, twitch, commands };
        assert(settings@.belabox.custom_interface_name =~= fresh_settings(
            remote_key_of(remote_url@).unwrap(),
            bot_username@,
            bot_oauth@,
            channel@,
        ).belabox.custom_interface_name);
        assert(settings@.twitch.admins =~= Seq::<Seq<char>>::empty());
        Ok(settings)
    }
}

} // verus!
