//! The configuration of one command, taken from the settings.
use vstd::prelude::*;

use crate::database::Database;

verus! {

/// What a command needs to know of the account, the instance to create and
/// the key that opens it.
#[derive(Debug, Clone, PartialEq, Eq)]
pub struct Config {
    pub hcloud_api_token: String,
    pub ssh_key_path: String,
    pub ssh_key_name: String,
    pub image: String,
    pub server_type: String,
    pub location: String,
    pub user_data: String,
}

/// What a `Config` holds, as plain text.
pub struct ConfigView {
    pub hcloud_api_token: Seq<char>,
    pub ssh_key_path: Seq<char>,
    pub ssh_key_name: Seq<char>,
    pub image: Seq<char>,
    pub server_type: Seq<char>,
    pub location: Seq<char>,
    pub user_data: Seq<char>,
}

impl View for Config {
    type V = ConfigView;

    open spec fn view(&self) -> ConfigView {
        ConfigView {
            hcloud_api_token: self.hcloud_api_token@,
            ssh_key_path: self.ssh_key_path@,
            ssh_key_name: self.ssh_key_name@,
            image: self.image@,
            server_type: self.server_type@,
            location: self.location@,
            user_data: self.user_data@,
        }
    }
}

/// The fields of a `Config`, in the order in which they are checked.
#[derive(Clone, Copy, Debug, PartialEq, Eq, Structural)]
pub enum ConfigField {
    HcloudApiToken,
    SshKeyPath,
    SshKeyName,
    Image,
    ServerType,
    Location,
    UserData,
}

/// A required setting is absent or empty.
#[derive(Clone, Copy, Debug, PartialEq, Eq, Structural)]
pub enum ConfigError {
    Missing(ConfigField),
}

impl ConfigField {
    /// The key under which the settings store holds the field.
    pub open spec fn spec_key(self) -> Seq<char> {
        match self {
            ConfigField::HcloudApiToken => "hcloud_token"@,
            ConfigField::SshKeyPath => "ssh_key_path"@,
            ConfigField::SshKeyName => "ssh_key_name"@,
            ConfigField::Image => "image"@,
            ConfigField::ServerType => "server_type"@,
            ConfigField::Location => "location"@,
            ConfigField::UserData => "user_data"@,
        }
    }

    /// The key under which the settings store holds the field.
    pub fn key(self) -> (k: &'static str)
        ensures
            k@ == self.spec_key(),
    {
        match self {
            ConfigField::HcloudApiToken => "hcloud_token",
            ConfigField::SshKeyPath => "ssh_key_path",
            ConfigField::SshKeyName => "ssh_key_name",
            ConfigField::Image => "image",
            ConfigField::ServerType => "server_type",
            ConfigField::Location => "location",
            ConfigField::UserData => "user_data",
        }
    }
}

/// The text that the settings hold for `key`; the empty text where they hold none.
pub open spec fn setting(settings: Map<Seq<char>, Seq<char>>, key: Seq<char>) -> Seq<char> {
    if settings.contains_key(key) {
        settings[key]
    } else {
        Seq::empty()
    }
}

/// The configuration that the settings give: each field from its key.
pub open spec fn config_of(settings: Map<Seq<char>, Seq<char>>) -> ConfigView {
    ConfigView {
        hcloud_api_token: setting(settings, ConfigField::HcloudApiToken.spec_key()),
        ssh_key_path: setting(settings, ConfigField::SshKeyPath.spec_key()),
        ssh_key_name: setting(settings, ConfigField::SshKeyName.spec_key()),
        image: setting(settings, ConfigField::Image.spec_key()),
        server_type: setting(settings, ConfigField::ServerType.spec_key()),
        location: setting(settings, ConfigField::Location.spec_key()),
        user_data: setting(settings, ConfigField::UserData.spec_key()),
    }
}

/// The first field of the configuration that is empty, if any is.
pub open spec fn first_missing(c: ConfigView) -> Option<ConfigField> {
    if c.hcloud_api_token.len() == 0 {
        Some(ConfigField::HcloudApiToken)
    } else if c.ssh_key_path.len() == 0 {
        Some(ConfigField::SshKeyPath)
    } else if c.ssh_key_name.len() == 0 {
        Some(ConfigField::SshKeyName)
    } else if c.image.len() == 0 {
        Some(ConfigField::Image)
    } else if c.server_type.len() == 0 {
        Some(ConfigField::ServerType)
    } else if c.location.len() == 0 {
        Some(ConfigField::Location)
    } else if c.user_data.len() == 0 {
        Some(ConfigField::UserData)
    } else {
        None
    }
}

/// Every field of the configuration holds some text.
pub open spec fn complete(c: ConfigView) -> bool {
    first_missing(c) is None
}

/// Whether the settings hold some text for the field's key.
pub open spec fn is_set(settings: Map<Seq<char>, Seq<char>>, field: ConfigField) -> bool {
    settings.contains_key(field.spec_key()) && settings[field.spec_key()].len() > 0
}

/// The settings give a complete configuration exactly where they hold some
/// text for the key of each of the seven fields.
pub proof fn complete_means_every_key_set(settings: Map<Seq<char>, Seq<char>>)
    ensures
        complete(config_of(settings)) <==> forall|field: ConfigField| is_set(settings, field),
{
    if forall|field: ConfigField| is_set(settings, field) {
        assert(is_set(settings, ConfigField::HcloudApiToken));
        assert(is_set(settings, ConfigField::SshKeyPath));
        assert(is_set(settings, ConfigField::SshKeyName));
        assert(is_set(settings, ConfigField::Image));
        assert(is_set(settings, ConfigField::ServerType));
        assert(is_set(settings, ConfigField::Location));
        assert(is_set(settings, ConfigField::UserData));
    }
}

fn read_field(database: &Database, field: ConfigField) -> (text: String)
    ensures
        text@ == setting(database@, field.spec_key()),
{
    match database.get(field.key()) {
        Some(v) => v,
        None => String::new(),
    }
}

impl Config {
    /// The configuration that the settings give. A field whose key the
    /// settings lack is empty.
    pub fn new(database: &Database) -> (config: Config)
        ensures
            config@ == config_of(database@),
    {
        Config {
            hcloud_api_token: read_field(database, ConfigField::HcloudApiToken),
            ssh_key_path: read_field(database, ConfigField::SshKeyPath),
            ssh_key_name: read_field(database, ConfigField::SshKeyName),
            image: read_field(database, ConfigField::Image),
            server_type: read_field(database, ConfigField::ServerType),
            location: read_field(database, ConfigField::Location),
            user_data: read_field(database, ConfigField::UserData),
        }
    }

    /// The first field that is empty, if any is.
    pub fn missing_field(&self) -> (r: Option<ConfigField>)
        ensures
            r == first_missing(self@),
    {
        if self.hcloud_api_token.as_str().is_empty() {
            Some(ConfigField::HcloudApiToken)
        } else if self.ssh_key_path.as_str().is_empty() {
            Some(ConfigField::SshKeyPath)
        } else if self.ssh_key_name.as_str().is_empty() {
            Some(ConfigField::SshKeyName)
        } else if self.image.as_str().is_empty() {
            Some(ConfigField::Image)
        } else if self.server_type.as_str().is_empty() {
            Some(ConfigField::ServerType)
        } else if self.location.as_str().is_empty() {
            Some(ConfigField::Location)
        } else if self.user_data.as_str().is_empty() {
            Some(ConfigField::UserData)
        } else {
            None
        }
    }
}

impl Default for Config {
    /// The configuration that an empty settings store gives.
    fn default() -> (config: Config)
        ensures
            config@ == config_of(Map::empty()),
    {
        Config::new(&Database::new())
    }
}

/// The configuration for one command: the one that the settings give, where
/// every field of it holds some text. Otherwise the first empty field is
/// reported and nothing else is done with the settings.
pub fn load_config(_config_path: &str, database: &Database) -> (r: Result<Config, ConfigError>)
    ensures
        match first_missing(config_of(database@)) {
            Some(field) => r == Err::<Config, ConfigError>(ConfigError::Missing(field)),
            None => r matches Ok(config) && config@ == config_of(database@),
        },
{
    let config = Config::new(database);
    match config.missing_field() {
        Some(field) => Err(ConfigError::Missing(field)),
        None => Ok(config),
    }
}

} // verus!
