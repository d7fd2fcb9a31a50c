//! The client's settings, held in a slot that the program fills once at
//! start-up and hands to whatever needs them, in place of a global.

use vstd::prelude::*;
use crate::text::ends_with_char;

verus! {

/// The operator's public key, the relays to use, and the log level.
#[derive(Clone, Debug)]
pub struct Settings {
    pub mostro_pubkey: String,
    pub relays: Vec<String>,
    pub log_level: String,
}

pub struct SettingsView {
    pub mostro_pubkey: Seq<char>,
    pub relays: Seq<Seq<char>>,
    pub log_level: Seq<char>,
}

impl View for Settings {
    type V = SettingsView;

    open spec fn view(&self) -> SettingsView {
        SettingsView {
            mostro_pubkey: self.mostro_pubkey@,
            relays: self.relays.deep_view(),
            log_level: self.log_level@,
        }
    }
}

/// Where the settings are kept once loaded.
pub struct SettingsSlot {
    pub settings: Option<Settings>,
}

impl SettingsSlot {
    /// A slot with no settings yet.
    pub fn new() -> (r: SettingsSlot)
        ensures
            r.settings is None,
    {
        SettingsSlot { settings: None }
    }
}

impl Settings {
    /// A copy with the same value.
    pub fn copy(&self) -> (r: Settings)
        ensures
            r@ == self@,
    {
        let mut relays: Vec<String> = Vec::new();
        let mut i: usize = 0;
        while i < self.relays.len()
            invariant
                i <= self.relays.len(),
                relays.deep_view() == self.relays.deep_view().take(i as int),
            decreases self.relays.len() - i,
        {
            let ghost prev = relays.deep_view();
            let c = self.relays[i].clone();
            relays.push(c);
            assert(relays.deep_view() =~= prev.push(c@));
            assert(self.relays.deep_view()[i as int] == self.relays@[i as int]@);
            assert(relays.deep_view() =~= self.relays.deep_view().take(i + 1));
            i = i + 1;
        }
        assert(self.relays.deep_view().take(i as int) =~= self.relays.deep_view());
        Settings {
            mostro_pubkey: self.mostro_pubkey.clone(),
            relays,
            log_level: self.log_level.clone(),
        }
    }

    /// A copy of the settings that `slot` holds; they are to be loaded first.
    pub fn get(slot: &SettingsSlot) -> (r: Settings)
        requires
            slot.settings is Some,
        ensures
            r@ == slot.settings->Some_0@,
    {
        match &slot.settings {
            Some(s) => s.copy(),
            None => Settings { mostro_pubkey: String::new(), relays: Vec::new(), log_level: String::new() },
        }
    }
}

/// Puts the loaded settings in `slot`, which is filled only once.
pub fn init_global_settings(slot: &mut SettingsSlot, settings: Settings)
    requires
        old(slot).settings is None,
    ensures
        final(slot).settings == Some(settings),
{
    slot.settings = Some(settings);
}

/// Whether a directory path ends with a separator.
pub fn has_trailing_slash(p: &str) -> (r: bool)
    ensures
        r == (p@.len() > 0 && p@.last() == '/'),
{
    ends_with_char(p, '/')
}

/// Ends a directory path with a separator.
pub fn add_trailing_slash(p: &mut String)
    ensures
        final(p)@ == old(p)@ + "/"@,
{
    p.append("/");
}

/// The path of the settings file in directory `dir`.
pub fn settings_file_name(dir: &str) -> (r: String)
    ensures
        r@ == (if dir@.len() > 0 && dir@.last() == '/' {
            dir@
        } else {
            dir@ + "/"@
        }) + "settings.toml"@,
{
    let mut path = String::from_str(dir);
    if !has_trailing_slash(dir) {
        add_trailing_slash(&mut path);
    }
    path.append("settings.toml");
    path
}

} // verus!
