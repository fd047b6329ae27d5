use dock::Input;
use dock::InputPart;
use dock::TokenizeError;

#[test]
fn shlex_parse() {
    let buf = r#"dock command -S --extended --string "This is a string with spaces""#.to_string();

    assert_eq!(
        vec![
            "dock",
            "command",
            "-S",
            "--extended",
            "--string",
            "This is a string with spaces"
        ],
        Input::new(&buf).unwrap().split
    );
}

#[test]
fn lexer() {
    let buf = r#"dock command -S --extended --string "This is a string with spaces""#.to_string();

    assert_eq!(
        vec![
            InputPart::Program("dock".to_string()),
            InputPart::Command("command".to_string()),
            InputPart::ShortArg("-S".to_string()),
            InputPart::LongArg("--extended".to_string()),
            InputPart::LongArg("--string".to_string()),
            InputPart::StringLiteral("This is a string with spaces".to_string())
        ],
        Input::new(&buf).unwrap().lexed
    );
}

#[test]
fn tokenizes_quoted_scenario() {
    let inp = Input::new("dock command -S --extended --string \"a b\"").unwrap();

    assert_eq!(
        inp.lexed,
        vec![
            InputPart::Program("dock".to_string()),
            InputPart::Command("command".to_string()),
            InputPart::ShortArg("-S".to_string()),
            InputPart::LongArg("--extended".to_string()),
            InputPart::LongArg("--string".to_string()),
            InputPart::StringLiteral("a b".to_string())
        ]
    );
}

#[test]
fn unbalanced_quote_is_rejected() {
    assert_eq!(
        Input::new("dock cmd \"unterminated"),
        Err(TokenizeError::UnbalancedQuote)
    );
}

#[test]
fn empty_line_is_rejected() {
    assert_eq!(Input::new(""), Err(TokenizeError::EmptyInput));
    assert_eq!(Input::new("   \t  "), Err(TokenizeError::EmptyInput));
}

#[test]
fn unquoted_line_has_one_token_per_word() {
    let inp = Input::new("prog alpha -b --c delta").unwrap();

    assert_eq!(inp.split.len(), 5);
    assert_eq!(inp.lexed.len(), 5);
    assert!(matches!(inp.lexed[0], InputPart::Program(_)));
}

#[test]
fn classification_follows_word_shape() {
    assert_eq!(
        Input::get_part("-x"),
        InputPart::ShortArg("-x".to_string())
    );
    assert_eq!(Input::get_part("-"), InputPart::ShortArg("-".to_string()));
    assert_eq!(
        Input::get_part("--x"),
        InputPart::LongArg("--x".to_string())
    );
    assert_eq!(Input::get_part("--"), InputPart::LongArg("--".to_string()));
    assert_eq!(
        Input::get_part("a b"),
        InputPart::StringLiteral("a b".to_string())
    );
    assert_eq!(
        Input::get_part("build"),
        InputPart::Command("build".to_string())
    );
}

#[test]
fn empty_quoted_group_makes_a_word() {
    let inp = Input::new("dock run \"\"").unwrap();

    assert_eq!(inp.split, vec!["dock", "run", ""]);
}

#[test]
fn split_agrees_with_shlex() {
    let line = r#"dock command -S --extended --string "This is a string with spaces""#;

    assert_eq!(
        Input::new(line).unwrap().split,
        shlex::split(line).unwrap()
    );
    assert_eq!(shlex::split("dock cmd \"unterminated"), None);
    assert!(Input::new("dock cmd \"unterminated").is_err());
}
