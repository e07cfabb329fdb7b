use initium::commands::{
    add_launcher_cmd, execute_launcher_cmd, executed_message, get_launchers, launch_report,
};
use initium::config_manager::ConfigManager;
use initium::environment::effective_overrides;
use initium::error::ErrorKind;
use initium::launcher::{
    assemble_command_line, default_timeout, describe_failure, plan_app, plan_launch, plan_url,
    shell_invocation, LaunchOptions, LaunchType, Launcher,
};
use initium::platform::Platform;

fn words(list: &[&str]) -> Vec<String> {
    list.iter().map(|s| s.to_string()).collect()
}

fn pairs(list: &[(&str, &str)]) -> Vec<(String, String)> {
    list.iter().map(|(k, v)| (k.to_string(), v.to_string())).collect()
}

#[test]
fn test_launcher_creation() {
    let launcher = Launcher::new(
        "test".to_string(),
        "Test".to_string(),
        LaunchType::Web,
        "https://example.com".to_string(),
    );
    assert_eq!(launcher.id, "test");
    assert_eq!(launcher.launch_type, LaunchType::Web);
}

#[test]
fn launcher_test_launcher_creation() {
    let launcher = Launcher {
        id: "test_001".to_string(),
        name: "Test App".to_string(),
        launch_type: LaunchType::App,
        target: "/usr/bin/test".to_string(),
        icon: Some("icon.svg".to_string()),
        options: None,
    };
    assert_eq!(launcher.name, "Test App");
}

#[test]
fn test_launcher_web_type() {
    let launcher = Launcher {
        id: "google".to_string(),
        name: "Google".to_string(),
        launch_type: LaunchType::Web,
        target: "https://google.com".to_string(),
        icon: Some("google.png".to_string()),
        options: None,
    };
    assert_eq!(launcher.launch_type, LaunchType::Web);
}

#[test]
fn test_launcher_app_type() {
    let launcher = Launcher {
        id: "vscode".to_string(),
        name: "VS Code".to_string(),
        launch_type: LaunchType::App,
        target: "/usr/bin/code".to_string(),
        icon: Some("vscode.png".to_string()),
        options: None,
    };
    assert_eq!(launcher.launch_type, LaunchType::App);
}

#[test]
fn test_launcher_with_icon() {
    let mut launcher = Launcher::new(
        "test".to_string(),
        "Test".to_string(),
        LaunchType::App,
        "sh".to_string(),
    );
    launcher.icon = Some("icon.png".to_string());
    assert!(launcher.icon.is_some());
}

#[test]
fn test_launch_options_default() {
    let options = LaunchOptions::default();
    assert_eq!(options.timeout_secs, 30);
    assert!(options.args.is_empty());
    assert!(options.env_vars.is_none());
}

#[test]
fn test_launcher_with_options() {
    let options = LaunchOptions {
        args: vec!["arg1".to_string(), "arg2".to_string()],
        timeout_secs: 60,
        env_vars: Some(vec![("KEY".to_string(), "value".to_string())]),
    };
    let launcher = Launcher::with_options(
        "test".to_string(),
        "Test".to_string(),
        LaunchType::App,
        "sh".to_string(),
        options,
    );
    assert_eq!(launcher.options.unwrap().timeout_secs, 60);
}

#[test]
fn new_launcher_has_neither_icon_nor_options() {
    let launcher = Launcher::new(
        "id".to_string(),
        "Name".to_string(),
        LaunchType::App,
        "/bin/true".to_string(),
    );
    assert_eq!(launcher.name, "Name");
    assert_eq!(launcher.target, "/bin/true");
    assert_eq!(launcher.launch_type, LaunchType::App);
    assert!(launcher.icon.is_none());
    assert!(launcher.options.is_none());
}

#[test]
fn with_options_keeps_every_option() {
    let options = LaunchOptions {
        args: words(&["a", "b"]),
        timeout_secs: 0,
        env_vars: Some(pairs(&[("K", "v")])),
    };
    let launcher = Launcher::with_options(
        "id".to_string(),
        "Name".to_string(),
        LaunchType::Web,
        "https://example.com".to_string(),
        options,
    );
    let kept = launcher.options.unwrap();
    assert_eq!(kept.args, words(&["a", "b"]));
    assert_eq!(kept.timeout_secs, 0);
    assert_eq!(kept.env_vars, Some(pairs(&[("K", "v")])));
    assert!(launcher.icon.is_none());
}

#[test]
fn default_timeout_is_thirty_seconds() {
    assert_eq!(default_timeout(), 30);
}

#[test]
fn command_line_of_a_program_on_linux() {
    let line = assemble_command_line(
        Platform::Linux,
        LaunchType::App,
        "sh",
        &words(&["-c", "echo test"]),
    )
    .unwrap();
    assert_eq!(line, "'sh' '-c' 'echo test'");
}

#[test]
fn command_line_of_a_web_address_on_each_platform() {
    let none: Vec<String> = vec![];
    let url = "https://example.com";
    assert_eq!(
        assemble_command_line(Platform::Linux, LaunchType::Web, url, &none).unwrap(),
        "xdg-open 'https://example.com'"
    );
    assert_eq!(
        assemble_command_line(Platform::MacOS, LaunchType::Web, url, &none).unwrap(),
        "open 'https://example.com'"
    );
    assert_eq!(
        assemble_command_line(Platform::Windows, LaunchType::Web, url, &none).unwrap(),
        "start \"\" \"https://example.com\""
    );
}

#[test]
fn command_line_of_a_program_on_windows_and_macos() {
    let args = words(&["--flag", "two words"]);
    assert_eq!(
        assemble_command_line(Platform::Windows, LaunchType::App, "C:\\tool.exe", &args).unwrap(),
        "\"C:\\tool.exe\" \"--flag\" \"two words\""
    );
    assert_eq!(
        assemble_command_line(Platform::MacOS, LaunchType::App, "/bin/tool", &args).unwrap(),
        "'/bin/tool' '--flag' 'two words'"
    );
}

#[test]
fn command_line_puts_web_arguments_after_the_address() {
    let line = assemble_command_line(
        Platform::Linux,
        LaunchType::Web,
        "https://example.com",
        &words(&["--new-window", ""]),
    )
    .unwrap();
    assert_eq!(line, "xdg-open 'https://example.com' '--new-window' ''");
}

#[test]
fn command_line_of_an_empty_target_is_two_quoting_marks() {
    let none: Vec<String> = vec![];
    assert_eq!(
        assemble_command_line(Platform::Linux, LaunchType::App, "", &none).unwrap(),
        "''"
    );
}

#[test]
fn quoting_mark_in_the_target_is_refused() {
    let none: Vec<String> = vec![];
    let r = assemble_command_line(Platform::Linux, LaunchType::App, "it's", &none);
    assert!(matches!(r, Err(ErrorKind::UnquotableArgument { position: 0 })));
    let r = assemble_command_line(Platform::Windows, LaunchType::Web, "a\"b", &none);
    assert!(matches!(r, Err(ErrorKind::UnquotableArgument { position: 0 })));
}

#[test]
fn quoting_mark_in_an_argument_is_refused_at_its_position() {
    let args = words(&["fine", "don't", "won't"]);
    let r = assemble_command_line(Platform::Linux, LaunchType::App, "sh", &args);
    assert!(matches!(r, Err(ErrorKind::UnquotableArgument { position: 2 })));
    let r = assemble_command_line(Platform::MacOS, LaunchType::Web, "https://example.com", &args);
    assert!(matches!(r, Err(ErrorKind::UnquotableArgument { position: 2 })));
}

#[test]
fn the_other_platforms_mark_is_an_ordinary_character() {
    let args = words(&["don't"]);
    assert_eq!(
        assemble_command_line(Platform::Windows, LaunchType::App, "app", &args).unwrap(),
        "\"app\" \"don't\""
    );
    let args = words(&["say \"hi\""]);
    assert_eq!(
        assemble_command_line(Platform::Linux, LaunchType::App, "app", &args).unwrap(),
        "'app' 'say \"hi\"'"
    );
    let r = assemble_command_line(Platform::Windows, LaunchType::App, "app", &args);
    assert!(matches!(r, Err(ErrorKind::UnquotableArgument { position: 1 })));
}

#[test]
fn shell_invocation_names_the_interpreter_of_each_platform() {
    let linux = shell_invocation(Platform::Linux, "'a'".to_string());
    assert_eq!(linux.program, "sh");
    assert_eq!(linux.args, words(&["-c", "'a'"]));
    let mac = shell_invocation(Platform::MacOS, "'a'".to_string());
    assert_eq!(mac.program, "sh");
    assert_eq!(mac.args, words(&["-c", "'a'"]));
    let windows = shell_invocation(Platform::Windows, "\"a\"".to_string());
    assert_eq!(windows.program, "cmd");
    assert_eq!(windows.args, words(&["/C", "\"a\""]));
}

#[test]
fn platform_profile_values() {
    assert_eq!(Platform::Linux.quote(), '\'');
    assert_eq!(Platform::MacOS.quote(), '\'');
    assert_eq!(Platform::Windows.quote(), '"');
    assert_eq!(Platform::Linux.shell(), "sh");
    assert_eq!(Platform::Windows.shell(), "cmd");
    assert_eq!(Platform::MacOS.shell_flag(), "-c");
    assert_eq!(Platform::Windows.shell_flag(), "/C");
    assert_eq!(Platform::Linux.opener(), "xdg-open");
    assert_eq!(Platform::MacOS.opener(), "open");
    assert_eq!(Platform::Windows.opener(), "start \"\"");
}

#[test]
fn test_launcher_execute_web() {
    let launcher = Launcher::new(
        "test".to_string(),
        "Test".to_string(),
        LaunchType::Web,
        "https://example.com".to_string(),
    );
    let plan = launcher.plan(Platform::Linux).unwrap();
    assert_eq!(plan.invocation.program, "sh");
    assert_eq!(plan.invocation.args, words(&["-c", "xdg-open 'https://example.com'"]));
    assert_eq!(plan.timeout_secs, 30);
    assert!(plan.env.is_empty());
}

#[test]
fn plan_of_a_launcher_with_options() {
    let options = LaunchOptions {
        args: words(&["-c", "echo $TEST_VAR"]),
        timeout_secs: 5,
        env_vars: Some(pairs(&[("TEST_VAR", "hello")])),
    };
    let launcher = Launcher::with_options(
        "test".to_string(),
        "Test".to_string(),
        LaunchType::App,
        "sh".to_string(),
        options,
    );
    let plan = launcher.plan(Platform::Linux).unwrap();
    assert_eq!(plan.invocation.program, "sh");
    assert_eq!(plan.invocation.args, words(&["-c", "'sh' '-c' 'echo $TEST_VAR'"]));
    assert_eq!(plan.env, pairs(&[("TEST_VAR", "hello")]));
    assert_eq!(plan.timeout_secs, 5);
}

#[test]
fn plan_url_and_plan_app_differ_only_in_the_verb() {
    let options = LaunchOptions { args: words(&["x"]), timeout_secs: 7, env_vars: None };
    let url = plan_url(Platform::MacOS, "t", &options).unwrap();
    let app = plan_app(Platform::MacOS, "t", &options).unwrap();
    assert_eq!(url.invocation.args[1], "open 't' 'x'");
    assert_eq!(app.invocation.args[1], "'t' 'x'");
    assert_eq!(url.timeout_secs, 7);
    assert_eq!(app.timeout_secs, 7);
    let same = plan_launch(Platform::MacOS, LaunchType::Web, "t", &options).unwrap();
    assert_eq!(same.invocation.args, url.invocation.args);
}

#[test]
fn plan_keeps_a_timeout_of_zero() {
    let options = LaunchOptions { args: vec![], timeout_secs: 0, env_vars: None };
    let plan = plan_app(Platform::Linux, "true", &options).unwrap();
    assert_eq!(plan.timeout_secs, 0);
}

#[test]
fn plan_refuses_what_cannot_be_quoted() {
    let options = LaunchOptions { args: words(&["ok", "it's"]), timeout_secs: 1, env_vars: None };
    let r = plan_app(Platform::Linux, "sh", &options);
    assert!(matches!(r, Err(ErrorKind::UnquotableArgument { position: 2 })));
    let launcher = Launcher::new(
        "q".to_string(),
        "Q".to_string(),
        LaunchType::Web,
        "http://x/'".to_string(),
    );
    let r = launcher.plan(Platform::Linux);
    assert!(matches!(r, Err(ErrorKind::UnquotableArgument { position: 0 })));
}

#[test]
fn overrides_keep_the_last_value_of_each_key() {
    let given = pairs(&[("A", "1"), ("B", "2"), ("A", "3"), ("C", "4"), ("B", "5")]);
    assert_eq!(effective_overrides(&given), pairs(&[("A", "3"), ("C", "4"), ("B", "5")]));
}

#[test]
fn overrides_without_repeats_stay_as_they_are() {
    let given = pairs(&[("A", "1"), ("B", "2")]);
    assert_eq!(effective_overrides(&given), given);
    let none: Vec<(String, String)> = vec![];
    assert_eq!(effective_overrides(&none), none);
}

#[test]
fn plan_hands_out_each_key_once() {
    let options = LaunchOptions {
        args: vec![],
        timeout_secs: 1,
        env_vars: Some(pairs(&[("K", "old"), ("K", "new")])),
    };
    let plan = plan_app(Platform::Linux, "env", &options).unwrap();
    assert_eq!(plan.env, pairs(&[("K", "new")]));
}

#[test]
fn launch_type_names() {
    assert_eq!(LaunchType::Web.name(), "web");
    assert_eq!(LaunchType::App.name(), "app");
    assert_eq!(LaunchType::from_name("web"), LaunchType::Web);
    assert_eq!(LaunchType::from_name("app"), LaunchType::App);
    assert_eq!(LaunchType::from_name("Web"), LaunchType::App);
    assert_eq!(LaunchType::from_name(""), LaunchType::App);
    assert_eq!(LaunchType::from_name(LaunchType::Web.name()), LaunchType::Web);
    assert_eq!(LaunchType::from_name(LaunchType::App.name()), LaunchType::App);
}

#[test]
fn front_end_adds_lists_and_removes() {
    let (mut manager, _) = ConfigManager::open("config.json".to_string(), None);
    add_launcher_cmd(
        &mut manager,
        "g".to_string(),
        "Google".to_string(),
        "web".to_string(),
        "https://google.com".to_string(),
        Some("g.png".to_string()),
    );
    add_launcher_cmd(
        &mut manager,
        "c".to_string(),
        "Code".to_string(),
        "binary".to_string(),
        "/usr/bin/code".to_string(),
        None,
    );
    let list = get_launchers(manager.config());
    assert_eq!(list.len(), 2);
    assert_eq!(list[0].id, "g");
    assert_eq!(list[0].name, "Google");
    assert_eq!(list[0].launch_type, "web");
    assert_eq!(list[0].target, "https://google.com");
    assert_eq!(list[0].icon, Some("g.png".to_string()));
    assert_eq!(list[1].launch_type, "app");
    assert_eq!(list[1].icon, None);
    assert!(manager.config().launchers[0].options.is_none());
    manager.remove_launcher("g");
    let list = get_launchers(manager.config());
    assert_eq!(list.len(), 1);
    assert_eq!(list[0].id, "c");
}

#[test]
fn front_end_plans_the_launcher_it_names() {
    let (mut manager, _) = ConfigManager::open("config.json".to_string(), None);
    add_launcher_cmd(
        &mut manager,
        "c".to_string(),
        "Code".to_string(),
        "app".to_string(),
        "/usr/bin/code".to_string(),
        None,
    );
    add_launcher_cmd(
        &mut manager,
        "bad".to_string(),
        "Bad".to_string(),
        "app".to_string(),
        "o'clock".to_string(),
        None,
    );
    let (launcher, plan) = execute_launcher_cmd(manager.config(), "c", Platform::Linux).unwrap();
    assert_eq!(launcher.name, "Code");
    assert_eq!(plan.invocation.args[1], "'/usr/bin/code'");
    assert_eq!(plan.timeout_secs, 30);
    let missing = execute_launcher_cmd(manager.config(), "nope", Platform::Linux);
    assert_eq!(missing.err().unwrap(), "Launcher not found");
    let refused = execute_launcher_cmd(manager.config(), "bad", Platform::Linux);
    assert_eq!(refused.err().unwrap(), "Quoting mark inside argument 0");
    assert!(execute_launcher_cmd(manager.config(), "bad", Platform::Windows).is_ok());
}

#[test]
fn front_end_messages() {
    let web = Launcher::new(
        "g".to_string(),
        "Google".to_string(),
        LaunchType::Web,
        "https://google.com".to_string(),
    );
    let app = Launcher::new(
        "c".to_string(),
        "Code".to_string(),
        LaunchType::App,
        "/usr/bin/code".to_string(),
    );
    assert_eq!(executed_message("Code"), "Launcher 'Code' executed");
    assert_eq!(
        launch_report(&app, Platform::Linux, Ok(())),
        Ok("Launcher 'Code' executed".to_string())
    );
    assert_eq!(
        launch_report(&app, Platform::Linux, Err(ErrorKind::Timeout { seconds: 30 })),
        Err("Timeout exceeded (30 seconds) [/usr/bin/code]".to_string())
    );
    assert_eq!(
        launch_report(&web, Platform::Linux, Err(ErrorKind::Timeout { seconds: 30 })),
        Err("Timeout exceeded (30 seconds) [xdg-open https://google.com]".to_string())
    );
    assert_eq!(
        launch_report(
            &web,
            Platform::Windows,
            Err(ErrorKind::SpawnFailed { reason: "denied".to_string() })
        ),
        Err("Execution error: denied [start \"\" https://google.com]".to_string())
    );
}

#[test]
fn failures_are_described_with_what_was_attempted() {
    let error = ErrorKind::NonZeroExit { code: 2, status: "exit status: 2".to_string() };
    assert_eq!(
        describe_failure(Platform::MacOS, LaunchType::Web, "https://example.com", &error),
        "Process exited with status: exit status: 2 [open https://example.com]"
    );
    assert_eq!(
        describe_failure(Platform::MacOS, LaunchType::App, "/bin/tool", &error),
        "Process exited with status: exit status: 2 [/bin/tool]"
    );
}
