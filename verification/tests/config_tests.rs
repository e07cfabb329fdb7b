use initium::config::Config;
use initium::launcher::{LaunchType, Launcher};

fn empty_config() -> Config {
    Config {
        version: "0.1.0".to_string(),
        theme: "light".to_string(),
        autostart: false,
        launchers: vec![],
    }
}

fn web_launcher(id: &str, name: &str) -> Launcher {
    Launcher {
        id: id.to_string(),
        name: name.to_string(),
        launch_type: LaunchType::Web,
        target: "https://example.com".to_string(),
        icon: Some("icon.png".to_string()),
        options: None,
    }
}

#[test]
fn test_config_creation() {
    let config = Config {
        version: "0.1.0".to_string(),
        theme: "light".to_string(),
        autostart: false,
        launchers: vec![],
    };
    assert_eq!(config.launchers.len(), 0);
}

#[test]
fn test_add_launcher() {
    let mut config = Config {
        version: "0.1.0".to_string(),
        theme: "light".to_string(),
        autostart: false,
        launchers: vec![],
    };

    let launcher = Launcher {
        id: "test".to_string(),
        name: "Test".to_string(),
        launch_type: LaunchType::Web,
        target: "https://example.com".to_string(),
        icon: Some("icon.png".to_string()),
        options: None,
    };

    config.add_launcher(launcher);
    assert_eq!(config.launchers.len(), 1);
}

#[test]
fn test_remove_launcher() {
    let mut config = Config {
        version: "0.1.0".to_string(),
        theme: "light".to_string(),
        autostart: false,
        launchers: vec![],
    };

    let launcher = Launcher {
        id: "test".to_string(),
        name: "Test".to_string(),
        launch_type: LaunchType::Web,
        target: "https://example.com".to_string(),
        icon: Some("icon.png".to_string()),
        options: None,
    };

    config.add_launcher(launcher);
    assert_eq!(config.launchers.len(), 1);

    config.remove_launcher("test");
    assert_eq!(config.launchers.len(), 0);
}

#[test]
fn add_launcher_appends_and_keeps_settings() {
    let mut config = empty_config();
    config.add_launcher(web_launcher("a", "First"));
    config.add_launcher(web_launcher("b", "Second"));
    let ids: Vec<&str> = config.launchers.iter().map(|l| l.id.as_str()).collect();
    assert_eq!(ids, vec!["a", "b"]);
    assert_eq!(config.version, "0.1.0");
    assert_eq!(config.theme, "light");
    assert!(!config.autostart);
}

#[test]
fn add_launcher_keeps_a_second_launcher_with_the_same_id() {
    let mut config = empty_config();
    config.add_launcher(web_launcher("a", "First"));
    config.add_launcher(web_launcher("a", "Second"));
    assert_eq!(config.launchers.len(), 2);
}

#[test]
fn remove_launcher_removes_every_match_and_keeps_order() {
    let mut config = empty_config();
    config.add_launcher(web_launcher("a", "One"));
    config.add_launcher(web_launcher("b", "Two"));
    config.add_launcher(web_launcher("a", "Three"));
    config.add_launcher(web_launcher("c", "Four"));
    config.remove_launcher("a");
    let names: Vec<&str> = config.launchers.iter().map(|l| l.name.as_str()).collect();
    assert_eq!(names, vec!["Two", "Four"]);
    assert_eq!(config.theme, "light");
}

#[test]
fn remove_launcher_with_unknown_id_changes_nothing() {
    let mut config = empty_config();
    config.add_launcher(web_launcher("a", "One"));
    config.remove_launcher("A");
    config.remove_launcher("");
    config.remove_launcher("ab");
    assert_eq!(config.launchers.len(), 1);
    assert_eq!(config.launchers[0].name, "One");
}

#[test]
fn find_launcher_returns_the_first_match() {
    let mut config = empty_config();
    config.add_launcher(web_launcher("a", "One"));
    config.add_launcher(web_launcher("b", "Two"));
    config.add_launcher(web_launcher("b", "Three"));
    assert_eq!(config.find_launcher("b").unwrap().name, "Two");
    assert_eq!(config.find_launcher("a").unwrap().name, "One");
    assert!(config.find_launcher("c").is_none());
    assert!(empty_config().find_launcher("a").is_none());
}
