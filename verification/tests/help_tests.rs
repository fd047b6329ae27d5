use dock::App;
use dock::CommandEntry;
use dock::DefaultHelpStructure;
use dock::Environment;
use dock::RunOutcome;
use dock::help::HelpMessage;

fn test_environment() -> Environment {
    Environment {
        os: "test-os".to_string(),
        vars: Vec::new(),
        argv: Vec::new(),
        current_dir: Ok("/".to_string()),
        current_exe: Err("unavailable".to_string()),
    }
}

#[test]
fn plain_help_of_empty_registry() {
    let app = App::new()
        .set_name("dock")
        .set_version("0.1.0")
        .set_description("desc");

    let help = app.generate_default_help().get_help();

    assert_eq!(help, "dock 0.1.0\ndesc\n\n\n");
}

#[test]
fn plain_help_lists_enabled_commands_in_order() {
    let app = App::new()
        .set_name("dock")
        .set_version("1.0")
        .set_description("d")
        .set_authors(vec!["Ferris".to_string(), "Crab".to_string()])
        .register_command(CommandEntry::new("alpha", "first one", false))
        .register_command(CommandEntry::new("hidden", "never shown", true))
        .register_command(CommandEntry::new("beta", "second one", false));

    let help = app.generate_default_help().get_help();

    assert_eq!(
        help,
        "dock 1.0\nd\n\nalpha first one\nbeta second one\nFerris, Crab"
    );
}

#[test]
fn unset_fields_render_empty() {
    let app = App::new();

    let help = app.generate_default_help().get_help();

    assert_eq!(help, " \n\n\n\n");
}

#[test]
fn rendering_twice_is_byte_identical() {
    let app = App::new()
        .set_name("dock")
        .set_version("0.1.0")
        .set_description("desc")
        .register_command(CommandEntry::new("alpha", "first one", false));

    let renderer = app.generate_default_help();
    assert_eq!(renderer.get_help(), renderer.get_help());
    assert_eq!(renderer.get_help_colored(), renderer.get_help_colored());
}

#[test]
fn colored_help_decorates_name_version_and_authors() {
    let structure = DefaultHelpStructure::new(
        App::new()
            .set_name("dock")
            .set_version("0.1.0")
            .set_description("desc")
            .set_authors(vec!["Ferris".to_string()])
            .config,
        vec![CommandEntry::new("alpha", "first one", false)],
    );

    assert_eq!(
        structure.get_help_colored(),
        "\u{1b}[34mdock\u{1b}[0m \u{1b}[34m0.1.0\u{1b}[0m\ndesc\n\n\u{1b}[32malpha\u{1b}[0m first one\n\u{1b}[34mFerris\u{1b}[0m"
    );
}

#[test]
fn command_display_variants() {
    let entry = CommandEntry::new("alpha", "first one", false);

    assert_eq!(entry.display(), "alpha first one");
    assert_eq!(
        entry.display_colored(),
        "\u{1b}[32malpha\u{1b}[0m first one"
    );
}

#[test]
fn installed_renderer_replaces_the_default() {
    let frozen = DefaultHelpStructure::new(App::new().set_name("frozen").config, Vec::new());
    let expected = frozen.get_help();

    let mut app = App::new()
        .set_name("dock")
        .set_help_command(frozen)
        .register_command(CommandEntry::new("later", "registered afterwards", false));

    let outcome = app.run("dock unknown", test_environment(), false);
    match outcome {
        RunOutcome::HelpShown(text) => assert_eq!(text, expected),
        other => panic!("expected help, got {:?}", other),
    }
}

#[test]
fn help_footer_joins_authors() {
    let app = App::new().set_authors(vec![
        "a".to_string(),
        "b".to_string(),
        "c".to_string(),
    ]);

    let structure = app.generate_default_help();
    assert_eq!(structure.build_footer(), "a, b, c");
}

#[test]
fn dispatch_fallback_uses_current_state() {
    let mut app = App::new()
        .set_name("dock")
        .set_version("0.1.0")
        .set_description("desc");

    let outcome = app.run("dock unknown", test_environment(), false);
    match outcome {
        RunOutcome::HelpShown(text) => assert_eq!(text, "dock 0.1.0\ndesc\n\n\n"),
        other => panic!("expected help, got {:?}", other),
    }
}
