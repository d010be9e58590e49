use loom_wm::config::keybindings::{
    is_executable, validate_app_id, validate_script_name, Direction, ZoomDirection,
};
use loom_wm::config::settings::{AiConfig, CanvasConfig, GeneralConfig, MAX_CONFIG_SIZE};
use loom_wm::config::{
    config_dir, config_dir_in, config_file, config_file_in, Config, ConfigError, Keybinding,
    KeybindingAction, Theme,
};

#[test]
fn test_valid_script_names() {
    assert!(validate_script_name("my-script.sh").is_ok());
    assert!(validate_script_name("script_name").is_ok());
    assert!(validate_script_name("Script123").is_ok());
}

#[test]
fn test_invalid_script_names() {
    assert!(validate_script_name("").is_err());
    assert!(validate_script_name("../evil").is_err());
    assert!(validate_script_name("/etc/passwd").is_err());
    assert!(validate_script_name("script;rm -rf /").is_err());
    assert!(validate_script_name("script`whoami`").is_err());
}

#[test]
fn test_valid_app_ids() {
    assert!(validate_app_id("firefox").is_ok());
    assert!(validate_app_id("org.gnome.Calculator").is_ok());
    assert!(validate_app_id("my-app").is_ok());
}

#[test]
fn test_invalid_app_ids() {
    assert!(validate_app_id("").is_err());
    assert!(validate_app_id("/usr/bin/evil").is_err());
    assert!(validate_app_id("app;rm -rf /").is_err());
}

fn violation(outcome: Result<(), ConfigError>) -> String {
    match outcome {
        Err(ConfigError::SecurityViolation(message)) => message,
        _ => panic!("a security violation was expected"),
    }
}

#[test]
fn test_validation_messages() {
    assert_eq!(violation(validate_script_name("")), "Script name cannot be empty");
    assert_eq!(violation(validate_script_name("a/b")), "Script name contains invalid characters");
    assert_eq!(violation(validate_script_name("a\\b")), "Script name contains invalid characters");
    assert_eq!(violation(validate_script_name("a..b")), "Script name contains invalid characters");
    assert_eq!(violation(validate_script_name("a b")), "Script name contains invalid characters");
    assert_eq!(violation(validate_app_id("")), "App ID cannot be empty");
    assert_eq!(violation(validate_app_id("a\\b")), "App ID contains invalid characters");
    assert_eq!(violation(validate_app_id("a$b")), "App ID contains invalid characters");
}

#[test]
fn test_names_with_dots_and_letters_of_other_scripts() {
    assert!(validate_script_name("a.b").is_ok());
    assert!(validate_script_name("..").is_err());
    assert!(validate_script_name("a..").is_err());
    assert!(validate_script_name(".hidden").is_ok());
    // An app ID may hold two dots in a row, a script name may not.
    assert!(validate_app_id("a..b").is_ok());
    assert!(validate_script_name("skript-ä9").is_ok());
    assert!(validate_app_id("сайт.приложение").is_ok());
    assert!(validate_app_id("app id").is_err());
}

#[test]
fn test_is_executable() {
    assert!(is_executable(0o755));
    assert!(is_executable(0o100));
    assert!(is_executable(0o001));
    assert!(!is_executable(0o644));
    assert!(!is_executable(0));
}

#[test]
fn test_config_paths() {
    assert_eq!(config_dir_in(Some("/home/user/.config")), "/home/user/.config/loom-wm");
    assert_eq!(
        config_file_in(Some("/home/user/.config")),
        "/home/user/.config/loom-wm/config.toml"
    );
    assert_eq!(config_dir_in(None), "./loom-wm");
    assert_eq!(config_file_in(None), "./loom-wm/config.toml");
    assert_eq!(config_dir_in(Some("/etc/")), "/etc/loom-wm");
}

#[test]
fn test_config_paths_of_this_user() {
    let dir = config_dir();
    let file = config_file();
    assert!(std::path::Path::new(&dir).ends_with("loom-wm"));
    assert!(std::path::Path::new(&file).ends_with("loom-wm/config.toml"));
    assert_eq!(std::path::Path::new(&file).parent(), Some(std::path::Path::new(&dir)));
    // The same environment, the same answer.
    assert_eq!(config_dir(), dir);
}

#[test]
fn test_config_size_limit() {
    assert!(Config::check_size("").is_ok());
    assert!(Config::check_size(&"a".repeat(MAX_CONFIG_SIZE)).is_ok());
    assert_eq!(
        violation(Config::check_size(&"a".repeat(MAX_CONFIG_SIZE + 1))),
        "Config file exceeds maximum size of 1MB"
    );
    assert_eq!(MAX_CONFIG_SIZE, 1024 * 1024);
}

#[test]
fn test_default_keybindings() {
    let bindings = Keybinding::defaults();
    let keys: Vec<&str> = bindings.iter().map(|binding| binding.key.as_str()).collect();
    assert_eq!(
        keys,
        vec![
            "Super+Return",
            "Super+D",
            "Super+Q",
            "Super+F",
            "Super+Space",
            "Super+0",
            "Super+Plus",
            "Super+Minus",
            "Super+Shift+Q",
        ]
    );
    assert!(matches!(bindings[0].action, KeybindingAction::Terminal));
    assert!(matches!(bindings[1].action, KeybindingAction::Launcher));
    assert!(matches!(bindings[2].action, KeybindingAction::Close));
    assert!(matches!(bindings[3].action, KeybindingAction::Fullscreen));
    assert!(matches!(bindings[4].action, KeybindingAction::AiPrompt));
    assert!(matches!(bindings[5].action, KeybindingAction::ResetView));
    assert!(matches!(
        bindings[6].action,
        KeybindingAction::Zoom { direction: ZoomDirection::In }
    ));
    assert!(matches!(
        bindings[7].action,
        KeybindingAction::Zoom { direction: ZoomDirection::Out }
    ));
    assert!(matches!(bindings[8].action, KeybindingAction::Quit));
    let pan = Keybinding::new("Super+Left", KeybindingAction::Pan { direction: Direction::Left });
    assert_eq!(pan.key, "Super+Left");
    assert!(matches!(pan.action, KeybindingAction::Pan { direction: Direction::Left }));
}

#[test]
fn test_default_config() {
    let config = Config::default();
    assert!(!config.general.debug);
    assert_eq!(config.general.terminal, "foot");
    assert!(config.general.launcher.is_none());
    assert_eq!(config.canvas.initial_zoom.to_bits(), 1.0f64.to_bits());
    assert_eq!(config.canvas.zoom_sensitivity.to_bits(), 0.1f64.to_bits());
    assert_eq!(config.canvas.pan_sensitivity.to_bits(), 1.0f64.to_bits());
    assert!(config.canvas.show_grid);
    assert_eq!(config.canvas.grid_spacing.to_bits(), 50.0f64.to_bits());
    assert!(config.ai.enabled);
    assert!(config.ai.service_url.is_none());
    assert!(config.ai.api_key.is_none());
    assert!(!config.ai.use_local);
    assert!(config.ai.local_model_path.is_none());
    assert_eq!(config.keybindings.len(), 9);
    assert_eq!(config.canvas, CanvasConfig::default());
    assert_eq!(GeneralConfig::default().terminal, "foot");
}

#[test]
fn test_default_theme() {
    let theme = Theme::default();
    assert_eq!(theme.background, "#0a0a0f");
    assert_eq!(theme.grid, "#1a1a2e");
    assert_eq!(theme.node_border, "#2d2d44");
    assert_eq!(theme.node_border_focused, "#6366f1");
    assert_eq!(theme.connection, "#4f46e5");
    assert_eq!(theme.text, "#e2e8f0");
    assert_eq!(theme.accent, "#8b5cf6");
    assert_eq!(theme.border_width.to_bits(), 2.0f32.to_bits());
    assert_eq!(theme.corner_radius.to_bits(), 8.0f32.to_bits());
    assert_eq!(theme.font_family, "Inter");
    assert_eq!(theme.font_size.to_bits(), 14.0f32.to_bits());
}

#[test]
fn test_api_key_from_the_environment_comes_first() {
    let mut config = AiConfig::default();
    assert_eq!(config.get_api_key(None), None);
    assert_eq!(config.get_api_key(Some("env".to_string())), Some("env".to_string()));
    assert_eq!(config.redacted_api_key(), None);
    config.api_key = Some("file".to_string());
    assert_eq!(config.get_api_key(None), Some("file".to_string()));
    assert_eq!(config.get_api_key(Some("env".to_string())), Some("env".to_string()));
    assert_eq!(config.redacted_api_key(), Some("[REDACTED]"));
}

#[test]
fn test_config_error_messages() {
    assert_eq!(
        ConfigError::ReadError("gone".to_string()).message(),
        "Failed to read config file: gone"
    );
    assert_eq!(ConfigError::ParseError("bad".to_string()).message(), "Failed to parse config: bad");
    assert_eq!(
        ConfigError::InvalidKeybinding("Super+".to_string()).message(),
        "Invalid keybinding: Super+"
    );
    assert_eq!(
        validate_app_id("").unwrap_err().message(),
        "Security violation: App ID cannot be empty"
    );
}
