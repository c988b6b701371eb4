use smtp2tg::config::{parse_args, Config, ParsedArgs, ValueOption};

fn args(raw: &[&str]) -> Vec<String> {
    raw.iter().map(|a| a.to_string()).collect()
}

#[test]
fn long_options() {
    let r = parse_args(&args(&[
        "--token", "abc123", "--chatid", "123456789", "--parsemode", "HTML", "--verbose",
    ]));
    assert_eq!(
        r,
        ParsedArgs::Run(Config {
            telegram_token: "abc123".to_string(),
            telegram_chat_id: "123456789".to_string(),
            parse_mode: "HTML".to_string(),
            verbose: true,
        })
    );
}

#[test]
fn short_options_and_defaults() {
    let r = parse_args(&args(&["-t", "tok", "-c", "42"]));
    assert_eq!(
        r,
        ParsedArgs::Run(Config {
            telegram_token: "tok".to_string(),
            telegram_chat_id: "42".to_string(),
            parse_mode: "MarkdownV2".to_string(),
            verbose: false,
        })
    );
}

#[test]
fn later_values_replace_earlier_ones() {
    match parse_args(&args(&["-t", "a", "-t", "b", "-c", "1", "-p", "x", "-p", "HTML", "-v"])) {
        ParsedArgs::Run(c) => {
            assert_eq!(c.telegram_token, "b");
            assert_eq!(c.parse_mode, "HTML");
            assert!(c.verbose);
        }
        other => panic!("unexpected result {:?}", other),
    }
}

#[test]
fn an_option_name_can_be_a_value() {
    match parse_args(&args(&["-t", "-v", "-c", "--help"])) {
        ParsedArgs::Run(c) => {
            assert_eq!(c.telegram_token, "-v");
            assert_eq!(c.telegram_chat_id, "--help");
            assert!(!c.verbose);
        }
        other => panic!("unexpected result {:?}", other),
    }
}

#[test]
fn token_without_value() {
    assert_eq!(parse_args(&args(&["--token"])), ParsedArgs::MissingValue(ValueOption::Token));
    assert_eq!(parse_args(&args(&["-c", "1", "-t"])), ParsedArgs::MissingValue(ValueOption::Token));
}

#[test]
fn chat_id_without_value() {
    assert_eq!(parse_args(&args(&["-t", "x", "--chatid"])), ParsedArgs::MissingValue(ValueOption::ChatId));
    assert_eq!(parse_args(&args(&["-c"])), ParsedArgs::MissingValue(ValueOption::ChatId));
}

#[test]
fn parse_mode_without_value_keeps_the_default() {
    match parse_args(&args(&["-t", "x", "-c", "1", "--parsemode"])) {
        ParsedArgs::Run(c) => assert_eq!(c.parse_mode, "MarkdownV2"),
        other => panic!("unexpected result {:?}", other),
    }
}

#[test]
fn help_is_asked_for() {
    assert_eq!(parse_args(&args(&["--help"])), ParsedArgs::Help);
    assert_eq!(parse_args(&args(&["-t", "x", "-h", "bogus"])), ParsedArgs::Help);
}

#[test]
fn unknown_argument() {
    assert_eq!(
        parse_args(&args(&["-t", "x", "--bogus", "-h"])),
        ParsedArgs::UnknownArgument("--bogus".to_string())
    );
}

#[test]
fn required_values_are_missing() {
    assert_eq!(parse_args(&args(&[])), ParsedArgs::MissingRequired);
    assert_eq!(parse_args(&args(&["-t", "x"])), ParsedArgs::MissingRequired);
    assert_eq!(parse_args(&args(&["-c", "1", "-v"])), ParsedArgs::MissingRequired);
    assert_eq!(parse_args(&args(&["-t", "", "-c", "1"])), ParsedArgs::MissingRequired);
}
