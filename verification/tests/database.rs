use ffs::config::{load_config, Config, ConfigError, ConfigField};
use ffs::database::{
    database_dir, database_file, Database, DatabaseError, DATABASE_DIR, DATABASE_FILENAME,
};

fn full_settings() -> Database {
    let mut db = Database::new();
    db.set("hcloud_token", "SECRET-REDACTED").unwrap();
    db.set("ssh_key_path", "/home/u/.ssh/id_ed25519").unwrap();
    db.set("ssh_key_name", "laptop").unwrap();
    db.set("image", "ubuntu-24.04").unwrap();
    db.set("server_type", "cx22").unwrap();
    db.set("location", "fsn1").unwrap();
    db.set("user_data", "#cloud-config").unwrap();
    db
}

#[test]
fn new_database_is_empty() {
    let db = Database::new();
    assert_eq!(db.get("provider"), None);
    assert_eq!(db.filename(), "database.toml");
    assert_eq!(DATABASE_FILENAME, "database.toml");
    assert_eq!(DATABASE_DIR, ".ffs");
}

#[test]
fn default_database_is_empty() {
    let db = Database::default();
    assert_eq!(db.get("anything"), None);
    assert_eq!(db.filename(), "database.toml");
}

#[test]
fn set_then_get_gives_the_value() {
    let mut db = Database::new();
    db.set("provider", "aws").unwrap();
    assert_eq!(db.get("provider"), Some("aws".to_string()));
    assert_eq!(db.get("other"), None);
}

#[test]
fn set_replaces_an_earlier_value() {
    let mut db = Database::new();
    db.set("provider", "aws").unwrap();
    db.set("image", "debian").unwrap();
    db.set("provider", "hetzner").unwrap();
    assert_eq!(db.get("provider"), Some("hetzner".to_string()));
    assert_eq!(db.get("image"), Some("debian".to_string()));
}

#[test]
fn set_gives_the_document_to_write() {
    let mut db = Database::new();
    let text = db.set("provider", "aws").unwrap();
    assert_eq!(text, "provider = \"aws\"\n");
    let text = db.set("image", "debian-12").unwrap();
    assert_eq!(text, "image = \"debian-12\"\nprovider = \"aws\"\n");
}

#[test]
fn written_document_loads_back() {
    let mut db = Database::new();
    db.set("a key", "with \"quotes\" and\nnewline").unwrap();
    let text = db.set("b", "").unwrap();
    let mut again = Database::new();
    again.load(&text).unwrap();
    assert_eq!(again.get("a key"), Some("with \"quotes\" and\nnewline".to_string()));
    assert_eq!(again.get("b"), Some(String::new()));
    assert_eq!(again.get("c"), None);
}

#[test]
fn load_reads_top_level_strings() {
    let mut db = Database::new();
    db.load("provider = \"aws\"\nimage = 'ubuntu'\n").unwrap();
    assert_eq!(db.get("provider"), Some("aws".to_string()));
    assert_eq!(db.get("image"), Some("ubuntu".to_string()));
}

#[test]
fn load_of_an_empty_document_gives_no_settings() {
    let mut db = Database::new();
    db.set("provider", "aws").unwrap();
    db.load("").unwrap();
    assert_eq!(db.get("provider"), None);
}

#[test]
fn load_replaces_what_was_held() {
    let mut db = Database::new();
    db.set("old", "value").unwrap();
    db.load("new = \"value\"\n").unwrap();
    assert_eq!(db.get("old"), None);
    assert_eq!(db.get("new"), Some("value".to_string()));
}

#[test]
fn load_gives_the_empty_text_for_what_is_no_string() {
    let mut db = Database::new();
    db.load("count = 3\nflag = true\nname = \"x\"\n[table]\ninner = \"y\"\n").unwrap();
    assert_eq!(db.get("count"), Some(String::new()));
    assert_eq!(db.get("flag"), Some(String::new()));
    assert_eq!(db.get("table"), Some(String::new()));
    assert_eq!(db.get("name"), Some("x".to_string()));
    assert_eq!(db.get("inner"), None);
}

#[test]
fn load_refuses_what_is_no_toml() {
    let mut db = Database::new();
    db.set("provider", "aws").unwrap();
    let r = db.load("this is = = not toml");
    assert!(matches!(r, Err(DatabaseError::Parse(_))));
    assert_eq!(db.get("provider"), Some("aws".to_string()));
}

#[test]
fn load_entries_keeps_the_last_of_a_repeated_key() {
    let mut db = Database::new();
    let raw = vec![
        ("k".to_string(), Some("first".to_string())),
        ("other".to_string(), None),
        ("k".to_string(), Some("last".to_string())),
    ];
    db.load_entries(&raw);
    assert_eq!(db.get("k"), Some("last".to_string()));
    assert_eq!(db.get("other"), Some(String::new()));
}

#[test]
fn database_paths_lie_under_home() {
    assert_eq!(database_dir("/home/u"), "/home/u/.ffs");
    assert_eq!(database_file("/home/u"), "/home/u/.ffs/database.toml");
}

#[test]
fn config_reads_each_field_from_its_key() {
    let db = full_settings();
    let c = Config::new(&db);
    assert_eq!(c.hcloud_api_token, "SECRET-REDACTED");
    assert_eq!(c.ssh_key_path, "/home/u/.ssh/id_ed25519");
    assert_eq!(c.ssh_key_name, "laptop");
    assert_eq!(c.image, "ubuntu-24.04");
    assert_eq!(c.server_type, "cx22");
    assert_eq!(c.location, "fsn1");
    assert_eq!(c.user_data, "#cloud-config");
}

#[test]
fn config_of_missing_settings_is_empty() {
    let c = Config::new(&Database::new());
    assert_eq!(c, Config::default());
    assert_eq!(c.hcloud_api_token, "");
    assert_eq!(c.user_data, "");
    assert_eq!(c.missing_field(), Some(ConfigField::HcloudApiToken));
}

#[test]
fn config_field_keys() {
    assert_eq!(ConfigField::HcloudApiToken.key(), "hcloud_token");
    assert_eq!(ConfigField::SshKeyPath.key(), "ssh_key_path");
    assert_eq!(ConfigField::SshKeyName.key(), "ssh_key_name");
    assert_eq!(ConfigField::Image.key(), "image");
    assert_eq!(ConfigField::ServerType.key(), "server_type");
    assert_eq!(ConfigField::Location.key(), "location");
    assert_eq!(ConfigField::UserData.key(), "user_data");
}

#[test]
fn load_config_gives_a_complete_configuration() {
    let db = full_settings();
    let c = load_config("./config.toml", &db).unwrap();
    assert_eq!(c, Config::new(&db));
    assert_eq!(c.missing_field(), None);
}

#[test]
fn load_config_reports_the_first_missing_field() {
    let order = [
        ("hcloud_token", ConfigField::HcloudApiToken),
        ("ssh_key_path", ConfigField::SshKeyPath),
        ("ssh_key_name", ConfigField::SshKeyName),
        ("image", ConfigField::Image),
        ("server_type", ConfigField::ServerType),
        ("location", ConfigField::Location),
        ("user_data", ConfigField::UserData),
    ];
    for (key, field) in order {
        let mut db = full_settings();
        db.set(key, "").unwrap();
        db.set("user_data", if key == "user_data" { "" } else { "x" }).unwrap();
        assert_eq!(load_config("", &db), Err(ConfigError::Missing(field)));
    }
    let mut db = full_settings();
    db.set("image", "").unwrap();
    db.set("location", "").unwrap();
    assert_eq!(load_config("", &db), Err(ConfigError::Missing(ConfigField::Image)));
    assert_eq!(
        load_config("", &Database::new()),
        Err(ConfigError::Missing(ConfigField::HcloudApiToken))
    );
}
