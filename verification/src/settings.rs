//! The settings a run starts from: a mapping from names to texts, and the
//! six entries that must be in it.

use vstd::prelude::*;
use vstd::string::*;

verus! {

/// A mapping from setting names to values. A later entry for a name
/// replaces an earlier one.
#[derive(Debug)]
pub struct Settings {
    entries: Vec<(String, String)>,
}

/// The mapping that a list of entries stands for: each entry is written
/// over what the entries before it gave.
pub open spec fn entries_map(entries: Seq<(Seq<char>, Seq<char>)>) -> Map<Seq<char>, Seq<char>>
    decreases entries.len(),
{
    if entries.len() == 0 {
        Map::empty()
    } else {
        entries_map(entries.drop_last()).insert(entries.last().0, entries.last().1)
    }
}

/// A key that no entry from `from` on has keeps the value that the entries
/// before `from` gave it.
proof fn lemma_entries_map_skips(entries: Seq<(Seq<char>, Seq<char>)>, from: int, key: Seq<char>)
    requires
        0 <= from <= entries.len(),
        forall|j: int| from <= j < entries.len() ==> entries[j].0 != key,
    ensures
        entries_map(entries).contains_key(key) == entries_map(
            entries.subrange(0, from),
        ).contains_key(key),
        entries_map(entries).contains_key(key) ==> entries_map(entries)[key] == entries_map(
            entries.subrange(0, from),
        )[key],
    decreases entries.len() - from,
{
    if from == entries.len() {
        assert(entries.subrange(0, from) =~= entries);
    } else {
        let shorter = entries.drop_last();
        lemma_entries_map_skips(shorter, from, key);
        assert(shorter.subrange(0, from) =~= entries.subrange(0, from));
    }
}

impl Settings {
    closed spec fn pairs(&self) -> Seq<(Seq<char>, Seq<char>)> {
        self.entries@.map_values(|entry: (String, String)| (entry.0@, entry.1@))
    }
}

impl View for Settings {
    type V = Map<Seq<char>, Seq<char>>;

    closed spec fn view(&self) -> Map<Seq<char>, Seq<char>> {
        entries_map(self.pairs())
    }
}

impl Settings {
    /// The empty mapping.
    pub fn new() -> (settings: Settings)
        ensures
            settings@ == Map::<Seq<char>, Seq<char>>::empty(),
    {
        let settings = Settings { entries: Vec::new() };
        assert(settings.pairs() =~= Seq::empty());
        settings
    }

    /// Gives `key` the value `value`, whatever it had before.
    pub fn insert(&mut self, key: String, value: String)
        ensures
            final(self)@ == old(self)@.insert(key@, value@),
    {
        self.entries.push((key, value));
        assert(self.pairs().drop_last() =~= old(self).pairs());
    }

    /// The value of `key`, if it has one.
    pub fn get(&self, key: &str) -> (found: Option<&String>)
        ensures
            match found {
                Some(value) => self@.contains_key(key@) && value@ == self@[key@],
                None => !self@.contains_key(key@),
            },
    {
        let wanted: String = key.to_owned();
        let mut at: usize = self.entries.len();
        while at > 0
            invariant
                at <= self.entries.len(),
                wanted@ == key@,
                forall|j: int| at <= j < self.entries.len() ==> self.pairs()[j].0 != key@,
            decreases at,
        {
            at = at - 1;
            if self.entries[at].0 == wanted {
                proof {
                    lemma_entries_map_skips(self.pairs(), at + 1, key@);
                    assert(self.pairs().subrange(0, at + 1).drop_last() =~= self.pairs().subrange(
                        0,
                        at as int,
                    ));
                }
                return Some(&self.entries[at].1);
            }
        }
        proof {
            lemma_entries_map_skips(self.pairs(), 0, key@);
            assert(self.pairs().subrange(0, 0) =~= Seq::empty());
        }
        None
    }
}

/// The names of the settings that must be there.
#[derive(Debug, Clone, Copy, PartialEq, Eq, Structural)]
pub enum SettingKey {
    BaseUrl,
    Login,
    Password,
    DeviceId,
    PortProfileDown,
    PortProfileUp,
}

impl SettingKey {
    /// The name under which the setting stands in the mapping.
    pub open spec fn spec_name(self) -> Seq<char> {
        match self {
            SettingKey::BaseUrl => "base_url"@,
            SettingKey::Login => "login"@,
            SettingKey::Password => "password"@,
            SettingKey::DeviceId => "device_id"@,
            SettingKey::PortProfileDown => "port_profile_down"@,
            SettingKey::PortProfileUp => "port_profile_up"@,
        }
    }

    /// The name under which the setting stands in the mapping.
    pub fn name(self) -> (name: &'static str)
        ensures
            name@ == self.spec_name(),
    {
        match self {
            SettingKey::BaseUrl => "base_url",
            SettingKey::Login => "login",
            SettingKey::Password => "password",
            SettingKey::DeviceId => "device_id",
            SettingKey::PortProfileDown => "port_profile_down",
            SettingKey::PortProfileUp => "port_profile_up",
        }
    }

    /// Whether the setting belongs to the controller's API itself: its
    /// address and the credentials.
    pub open spec fn spec_is_api_setting(self) -> bool {
        self is BaseUrl || self is Login || self is Password
    }

    /// Whether the setting belongs to the controller's API itself: its
    /// address and the credentials.
    pub fn is_api_setting(self) -> (api: bool)
        ensures
            api == self.spec_is_api_setting(),
    {
        match self {
            SettingKey::BaseUrl | SettingKey::Login | SettingKey::Password => true,
            _ => false,
        }
    }
}

/// Why no configuration could be had from the settings.
#[derive(Debug, Clone, Copy, PartialEq, Eq, Structural)]
pub enum ConfigError {
    /// The named setting is not there.
    MissingSetting(SettingKey),
}

/// The text that reports a missing setting, with the setting's name in it.
pub open spec fn missing_setting_message(key: SettingKey) -> Seq<char> {
    "can't find "@ + key.spec_name() + if key.spec_is_api_setting() {
        " Unifi API setting"@
    } else {
        " setting"@
    }
}

impl ConfigError {
    /// The setting that the error is about.
    pub fn key(&self) -> (key: SettingKey)
        ensures
            *self == ConfigError::MissingSetting(key),
    {
        match self {
            ConfigError::MissingSetting(key) => *key,
        }
    }

    /// The error as a line for the user.
    pub fn message(&self) -> (text: String)
        ensures
            text@ == missing_setting_message(self->0),
    {
        let key = self.key();
        let text = "can't find ".to_owned().concat(key.name());
        if key.is_api_setting() {
            text.concat(" Unifi API setting")
        } else {
            text.concat(" setting")
        }
    }
}

/// What a run needs to know: where the controller is, who logs in, which
/// device is meant, and the profiles for an enabled and a disabled port.
#[derive(Debug, Clone, PartialEq, Eq)]
pub struct ControllerConfig {
    pub base_url: String,
    pub login: String,
    pub password: String,
    pub device_id: String,
    pub port_profile_up: String,
    pub port_profile_down: String,
}

/// The mathematical value of a [`ControllerConfig`].
pub struct ControllerConfigView {
    pub base_url: Seq<char>,
    pub login: Seq<char>,
    pub password: Seq<char>,
    pub device_id: Seq<char>,
    pub port_profile_up: Seq<char>,
    pub port_profile_down: Seq<char>,
}

impl View for ControllerConfig {
    type V = ControllerConfigView;

    open spec fn view(&self) -> ControllerConfigView {
        ControllerConfigView {
            base_url: self.base_url@,
            login: self.login@,
            password: self.password@,
            device_id: self.device_id@,
            port_profile_up: self.port_profile_up@,
            port_profile_down: self.port_profile_down@,
        }
    }
}

/// Whether a mapping has the setting.
pub open spec fn has_setting(settings: Map<Seq<char>, Seq<char>>, key: SettingKey) -> bool {
    settings.contains_key(key.spec_name())
}

/// The first required setting that a mapping lacks, in the order in which
/// they are looked up, or `None` where it has them all.
pub open spec fn first_missing(settings: Map<Seq<char>, Seq<char>>) -> Option<SettingKey> {
    if !has_setting(settings, SettingKey::BaseUrl) {
        Some(SettingKey::BaseUrl)
    } else if !has_setting(settings, SettingKey::Login) {
        Some(SettingKey::Login)
    } else if !has_setting(settings, SettingKey::Password) {
        Some(SettingKey::Password)
    } else if !has_setting(settings, SettingKey::DeviceId) {
        Some(SettingKey::DeviceId)
    } else if !has_setting(settings, SettingKey::PortProfileDown) {
        Some(SettingKey::PortProfileDown)
    } else if !has_setting(settings, SettingKey::PortProfileUp) {
        Some(SettingKey::PortProfileUp)
    } else {
        None
    }
}

/// The configuration that a mapping with all six settings holds.
pub open spec fn config_of(settings: Map<Seq<char>, Seq<char>>) -> ControllerConfigView {
    ControllerConfigView {
        base_url: settings[SettingKey::BaseUrl.spec_name()],
        login: settings[SettingKey::Login.spec_name()],
        password: settings[SettingKey::Password.spec_name()],
        device_id: settings[SettingKey::DeviceId.spec_name()],
        port_profile_up: settings[SettingKey::PortProfileUp.spec_name()],
        port_profile_down: settings[SettingKey::PortProfileDown.spec_name()],
    }
}

/// What loading a mapping gives: its configuration, or the first setting
/// that is missing.
pub open spec fn load_result(
    settings: Map<Seq<char>, Seq<char>>,
) -> Result<ControllerConfigView, ConfigError> {
    match first_missing(settings) {
        Some(key) => Err(ConfigError::MissingSetting(key)),
        None => Ok(config_of(settings)),
    }
}

/// The value of a loading result.
pub open spec fn loaded_view(
    loaded: Result<ControllerConfig, ConfigError>,
) -> Result<ControllerConfigView, ConfigError> {
    match loaded {
        Ok(config) => Ok(config@),
        Err(error) => Err(error),
    }
}

fn required(settings: &Settings, key: SettingKey) -> (value: Result<String, ConfigError>)
    ensures
        match value {
            Ok(text) => has_setting(settings@, key) && text@ == settings@[key.spec_name()],
            Err(error) => !has_setting(settings@, key) && error == ConfigError::MissingSetting(key),
        },
{
    match settings.get(key.name()) {
        Some(text) => Ok(text.clone()),
        None => Err(ConfigError::MissingSetting(key)),
    }
}

impl ControllerConfig {
    /// Reads the six required settings. Fails with the first one that is
    /// missing, and only then.
    pub fn load(settings: &Settings) -> (loaded: Result<ControllerConfig, ConfigError>)
        ensures
            loaded_view(loaded) == load_result(settings@),
    {
        let base_url = match required(settings, SettingKey::BaseUrl) {
            Ok(text) => text,
            Err(error) => return Err(error),
        };
        let login = match required(settings, SettingKey::Login) {
            Ok(text) => text,
            Err(error) => return Err(error),
        };
        let password = match required(settings, SettingKey::Password) {
            Ok(text) => text,
            Err(error) => return Err(error),
        };
        let device_id = match required(settings, SettingKey::DeviceId) {
            Ok(text) => text,
            Err(error) => return Err(error),
        };
        let port_profile_down = match required(settings, SettingKey::PortProfileDown) {
            Ok(text) => text,
            Err(error) => return Err(error),
        };
        let port_profile_up = match required(settings, SettingKey::PortProfileUp) {
            Ok(text) => text,
            Err(error) => return Err(error),
        };
        Ok(ControllerConfig { base_url, login, password, device_id, port_profile_up, port_profile_down })
    }
}

} // verus!
