use dock::App;
use dock::CargoConfig;
use dock::CargoConfigPackage;
use dock::CommandEntry;
use dock::Environment;
use dock::RunOutcome;
use dock::TokenizeError;

fn test_environment() -> Environment {
    Environment {
        os: "test-os".to_string(),
        vars: Vec::new(),
        argv: Vec::new(),
        current_dir: Ok("/".to_string()),
        current_exe: Err("unavailable".to_string()),
    }
}

#[test]
fn manual_setup() {
    let app = App::new()
        .set_name("Dock-test")
        .set_description("Dock unit test application")
        .set_authors(vec!["Ferris".to_string()])
        .set_version("1.2.3");

    assert_eq!(app.config.name.as_ref().unwrap(), &"Dock-test".to_string());
    assert_eq!(
        app.config.description.as_ref().unwrap(),
        &"Dock unit test application".to_string()
    );
    assert_eq!(
        app.config.authors.as_ref().unwrap(),
        &vec!["Ferris".to_string()]
    );
    assert_eq!(app.config.version.as_ref().unwrap(), &"1.2.3".to_string());
}

#[test]
fn missing_manual_setup() {
    let app = App::new()
        .set_name("Dock-test")
        .set_description("Dock unit test application");

    assert_eq!(app.config.name.as_ref().unwrap(), &"Dock-test".to_string());
    assert_eq!(
        app.config.description.as_ref().unwrap(),
        &"Dock unit test application".to_string()
    );
    assert_eq!(app.config.authors.as_ref(), None);
    assert_eq!(app.config.version.as_ref(), None);
}

#[test]
fn crate_config_setup() {
    let app = App::from_crate(CargoConfig {
        package: CargoConfigPackage {
            name: Some("dock".to_string()),
            description: Some("The simple, fast and powerful command line parser".to_string()),
            authors: Some(vec!["dimensionhq".to_string()]),
            version: Some("0.1.0".to_string()),
        },
    });

    assert_eq!(app.config.name.as_ref().unwrap(), &"dock".to_string());
    assert_eq!(
        app.config.description.as_ref().unwrap(),
        &"The simple, fast and powerful command line parser".to_string()
    );
    assert_eq!(
        app.config.authors.as_ref().unwrap(),
        &vec!["dimensionhq".to_string()]
    );
    assert_eq!(app.config.version.as_ref().unwrap(), &"0.1.0".to_string());
}

#[test]
fn app_manual_setup() {
    let app = App::new()
        .set_name("Dock-test")
        .set_description("Dock unit test application")
        .set_authors(vec!["Ferris".to_string()])
        .set_version("1.2.3");

    assert_eq!(app.config.name.as_ref().unwrap(), &"Dock-test".to_string());
    assert_eq!(
        app.config.description.as_ref().unwrap(),
        &"Dock unit test application".to_string()
    );
    assert_eq!(
        app.config.authors.as_ref().unwrap(),
        &vec!["Ferris".to_string()]
    );
    assert_eq!(app.config.version.as_ref().unwrap(), &"1.2.3".to_string());
}

#[test]
fn app_missing_manual_setup() {
    let app = App::new()
        .set_name("Dock-test")
        .set_description("Dock unit test application");

    assert_eq!(app.config.name.as_ref().unwrap(), &"Dock-test".to_string());
    assert_eq!(
        app.config.description.as_ref().unwrap(),
        &"Dock unit test application".to_string()
    );
    assert_eq!(app.config.authors.as_ref(), None);
    assert_eq!(app.config.version.as_ref(), None);
}

#[test]
fn app_crate_config_setup() {
    let app = App::from_crate(CargoConfig {
        package: CargoConfigPackage {
            name: Some("dock".to_string()),
            description: Some("The simple, fast and powerful command line parser".to_string()),
            authors: Some(vec!["dimensionhq".to_string()]),
            version: Some("0.1.0".to_string()),
        },
    });

    assert_eq!(app.config.name.as_ref().unwrap(), &"dock".to_string());
    assert_eq!(
        app.config.description.as_ref().unwrap(),
        &"The simple, fast and powerful command line parser".to_string()
    );
    assert_eq!(
        app.config.authors.as_ref().unwrap(),
        &vec!["dimensionhq".to_string()]
    );
    assert_eq!(app.config.version.as_ref().unwrap(), &"0.1.0".to_string());
}

#[test]
fn dispatch_invokes_enabled_command_once() {
    let mut app = App::new()
        .set_name("dock")
        .register_command(CommandEntry::new("dummy", "a dummy command", false));

    let outcome = app.run("dock dummy", test_environment(), false);

    assert!(matches!(outcome, RunOutcome::Invoked(0)));
    assert_eq!(app.commands[0].calls, 1);
}

#[test]
fn dispatch_of_disabled_command_renders_help() {
    let mut app = App::new()
        .set_name("dock")
        .register_command(CommandEntry::new("dummy", "a dummy command", true));

    let outcome = app.run("dock dummy", test_environment(), false);

    assert!(matches!(outcome, RunOutcome::HelpShown(_)));
    assert_eq!(app.commands[0].calls, 0);
}

#[test]
fn dispatch_of_unbalanced_quote_fails() {
    let mut app = App::new()
        .set_name("dock")
        .register_command(CommandEntry::new("cmd", "", false));

    let outcome = app.run("dock cmd \"unterminated", test_environment(), false);

    assert!(matches!(
        outcome,
        RunOutcome::Failed(TokenizeError::UnbalancedQuote)
    ));
    assert_eq!(app.commands[0].calls, 0);
}

#[test]
fn dispatch_without_command_token_renders_help() {
    let mut app = App::new()
        .set_name("dock")
        .register_command(CommandEntry::new("cmd", "", false));

    let outcome = app.run("dock -S --extended", test_environment(), false);

    assert!(matches!(outcome, RunOutcome::HelpShown(_)));
    assert_eq!(app.commands[0].calls, 0);
}

#[test]
fn dispatch_of_empty_line_fails() {
    let mut app = App::new().set_name("dock");

    let outcome = app.run("", test_environment(), false);

    assert!(matches!(
        outcome,
        RunOutcome::Failed(TokenizeError::EmptyInput)
    ));
}

#[test]
fn resolution_skips_disabled_and_takes_first_enabled() {
    let app = App::new()
        .register_command(CommandEntry::new("task", "disabled twin", true))
        .register_command(CommandEntry::new("task", "enabled twin", false))
        .register_command(CommandEntry::new("task", "later twin", false));

    assert_eq!(app.resolve("task"), Some(1));
    assert_eq!(app.resolve("missing"), None);
}

#[test]
fn resolution_of_all_disabled_fails() {
    let app = App::new()
        .register_command(CommandEntry::new("task", "first", true))
        .register_command(CommandEntry::new("task", "second", true));

    assert_eq!(app.resolve("task"), None);
}

#[test]
fn snapshot_keeps_registration_order_of_enabled() {
    let app = App::new()
        .register_command(CommandEntry::new("one", "", false))
        .register_command(CommandEntry::new("two", "", true))
        .register_command(CommandEntry::new("three", "", false));

    let snapshot = app.enabled_snapshot();
    assert_eq!(snapshot.len(), 2);
    assert_eq!(snapshot[0].name, "one");
    assert_eq!(snapshot[1].name, "three");
}
