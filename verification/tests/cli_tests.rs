use freebox_exporter::cli::{configuration_path, log_level, plan_command, Action, Cli, Command, CustomLogFilter};

#[test]
fn commands_get_their_defaults() {
    assert_eq!(
        plan_command(&Command::Auto { pooling_interval: None, port: None }, Some(9102)),
        Action::AutoRegisterAndServe { interval: 6, port: 9102 }
    );
    assert_eq!(
        plan_command(&Command::Auto { pooling_interval: Some(2), port: Some(80) }, None),
        Action::AutoRegisterAndServe { interval: 2, port: 80 }
    );
    assert_eq!(plan_command(&Command::Register { pooling_interval: None }, None), Action::Register { interval: 6 });
    assert_eq!(plan_command(&Command::Serve { port: None }, Some(1)), Action::Serve { port: 1 });
    assert_eq!(
        plan_command(&Command::SessionDiagnostic { show_token: None }, None),
        Action::SessionDiagnostic { show_token: false }
    );
    assert_eq!(plan_command(&Command::Revoke, None), Action::Revoke);
}

#[test]
fn configuration_file_and_log_level_defaults() {
    let cli = Cli { command: Command::Revoke, configuration_file: None, verbosity: None };
    assert_eq!(configuration_path(&cli), "config.toml");
    let cli = Cli { command: Command::Revoke, configuration_file: Some("/etc/fbx.toml".to_string()), verbosity: None };
    assert_eq!(configuration_path(&cli), "/etc/fbx.toml");
    assert_eq!(log_level(&None, &None), "Info");
    assert_eq!(log_level(&None, &Some("Warn".to_string())), "Warn");
    assert_eq!(log_level(&Some("Debug".to_string()), &Some("Warn".to_string())), "Debug");
}

#[test]
fn noisy_modules_log_only_at_debug_level() {
    let f = CustomLogFilter;
    assert!(!f.keeps(false, "reqwest::connect"));
    assert!(!f.keeps(false, "prometheus_exporter"));
    assert!(f.keeps(true, "reqwest::connect"));
    assert!(f.keeps(false, "freebox_exporter::core"));
    assert!(f.keeps(false, ""));
}
