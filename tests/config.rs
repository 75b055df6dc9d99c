use mc_server_manager::config::{
    config_create_config, config_fetch_directories, config_get_value, config_key_path, config_set_value, ProjectPaths,
    APP_NAME, APP_VERSION,
};
use mc_server_manager::error::LibError;

#[test]
fn directories_and_default_config() {
    let d = config_fetch_directories(
        Some(ProjectPaths {
            config_dir: "/c".to_string(),
            data_dir: "/d".to_string(),
            cache_dir: "/k".to_string(),
        }),
        Some("/h".to_string()),
    );
    assert_eq!(d.server_dir, "/d/servers");
    assert_eq!(d.home_dir, "/h");
    let empty = config_fetch_directories(None, None);
    assert_eq!(empty.server_dir, "");
    let c = config_create_config(d);
    assert_eq!(c.title, APP_NAME);
    assert_eq!(c.version, APP_VERSION);
    assert_eq!(c.directories.config_dir, "/c");
    assert_eq!(c.java_paths.java17_path, "");
}

#[test]
fn key_paths_split_on_dots() {
    assert_eq!(config_key_path("directories.server_dir"), vec!["directories", "server_dir"]);
    assert_eq!(config_key_path("title"), vec!["title"]);
    assert_eq!(config_key_path(""), vec![""]);
    assert_eq!(config_key_path("a..b."), vec!["a", "", "b", ""]);
}

fn sample() -> toml::Value {
    "title = \"mc\"\n[directories]\nserver_dir = \"/d/servers\"\n[java_paths]\njava17_path = \"\"\n"
        .parse::<toml::Value>()
        .unwrap()
}

#[test]
fn get_value_walks_dotted_keys() {
    let v = sample();
    assert_eq!(config_get_value(&v, "title").and_then(|x| x.as_str()), Some("mc"));
    assert_eq!(
        config_get_value(&v, "directories.server_dir").and_then(|x| x.as_str()),
        Some("/d/servers")
    );
    assert!(config_get_value(&v, "directories.missing").is_none());
    assert!(config_get_value(&v, "title.deeper").is_none());
    assert!(config_get_value(&v, "").is_none());
}

#[test]
fn set_value_replaces_existing_entries_only() {
    let mut v = sample();
    let r = config_set_value(&mut v, "java_paths.java17_path", toml::Value::String("/opt/j17".to_string()));
    assert_eq!(r.unwrap(), true);
    assert_eq!(config_get_value(&v, "java_paths.java17_path").and_then(|x| x.as_str()), Some("/opt/j17"));
    assert_eq!(config_get_value(&v, "directories.server_dir").and_then(|x| x.as_str()), Some("/d/servers"));
    let before = v.clone();
    assert!(matches!(
        config_set_value(&mut v, "java_paths.java99_path", toml::Value::Boolean(true)),
        Err(LibError::Misc(ref m)) if m == "Invalid Key"
    ));
    assert!(matches!(config_set_value(&mut v, "nope.x", toml::Value::Boolean(true)), Err(LibError::Misc(ref m)) if m == "Invalid Key"));
    assert_eq!(v, before);
}
