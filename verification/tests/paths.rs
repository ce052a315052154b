use palingenesis::config::paths::{config_dir_from, config_file_from, state_dir_from, Paths};
use palingenesis::config::schema::runtime_dir_from;

#[test]
fn test_env_override_config_file() {
    let config_path = "/tmp/palingenesis-test/config.toml".to_string();
    let paths = Paths::new(Some(config_path.clone()), None, None);
    assert_eq!(paths.config_file(), config_path);
}

#[test]
fn test_env_override_config_dir() {
    let config_path = "/tmp/palingenesis-test/config.toml".to_string();
    let paths = Paths::new(Some(config_path), None, None);
    assert_eq!(paths.config_dir(), "/tmp/palingenesis-test");
}

#[test]
fn test_env_override_state_dir() {
    let state_path = "/tmp/palingenesis-test/state".to_string();
    let paths = Paths::new(None, Some(state_path.clone()), None);
    assert_eq!(paths.state_dir(), state_path);
}

#[test]
fn test_env_override_runtime_dir() {
    let runtime_path = "/tmp/palingenesis-test/runtime".to_string();
    let paths = Paths::new(None, None, Some(runtime_path.clone()));
    assert_eq!(paths.runtime_dir(), runtime_path);
}

#[test]
fn test_linux_paths() {
    let paths = Paths::new(None, None, None);
    assert!(paths.config_dir().contains(".config/palingenesis"));
    assert!(paths.state_dir().contains(".local/state/palingenesis"));
}

#[test]
fn test_runtime_dir_uses_xdg_runtime_dir() {
    let runtime_dir = runtime_dir_from(Some("/tmp/xdg-runtime".to_string()), 1000);
    assert!(runtime_dir.starts_with("/tmp/xdg-runtime"));
    assert_eq!(runtime_dir, "/tmp/xdg-runtime/palingenesis");
}

#[test]
fn fallbacks_when_user_directories_are_unknown() {
    assert_eq!(config_dir_from(None, None, Some("/home/u".to_string())), "/home/u/.config/palingenesis");
    assert_eq!(config_dir_from(None, None, None), ".config/palingenesis");
    assert_eq!(config_dir_from(None, Some("/xdg".to_string()), None), "/xdg/palingenesis");
    assert_eq!(config_file_from(None, None, Some("/h".to_string())), "/h/.config/palingenesis/config.toml");
    assert_eq!(state_dir_from(None, None, Some("/h".to_string())), "/h/.local/state/palingenesis");
    assert_eq!(state_dir_from(None, None, None), ".local/state/palingenesis");
    assert_eq!(runtime_dir_from(None, 42), "/run/user/42/palingenesis");
}

#[test]
fn config_file_without_parent_is_its_own_directory() {
    assert_eq!(config_dir_from(Some("config.toml".to_string()), None, None), "config.toml");
    assert_eq!(config_dir_from(Some("/config.toml".to_string()), None, None), "/");
}
