use aegis::{parse_command, Command, FastArgs, InitArgs, OutputFormat, SmokeArgs};

fn args(words: &[&str]) -> Vec<String> {
    words.iter().map(|w| w.to_string()).collect()
}

#[test]
fn parses_default_help_command() {
    assert_eq!(parse_command(Vec::<String>::new()).unwrap(), Command::Help);
}

#[test]
fn parses_smoke_args() {
    let command = parse_command(vec![
        "smoke".to_string(),
        "--url".to_string(),
        "http://127.0.0.1:4173/docs".to_string(),
        "--status".to_string(),
        "200".to_string(),
        "--expect".to_string(),
        "Axonyx".to_string(),
    ])
    .unwrap();

    assert_eq!(
        command,
        Command::Smoke(SmokeArgs {
            url: "http://127.0.0.1:4173/docs".to_string(),
            expect_status: 200,
            expect_text: Some("Axonyx".to_string()),
            expect_all: Vec::new(),
            expect_not: Vec::new(),
        })
    );
}

#[test]
fn parses_https_smoke_target() {
    let command = parse_command(vec![
        "smoke".to_string(),
        "--url".to_string(),
        "https://react.axonyx.dev/docs/getting-started".to_string(),
    ])
    .unwrap();

    let Command::Smoke(args) = command else {
        panic!("expected smoke command");
    };

    assert_eq!(args.url, "https://react.axonyx.dev/docs/getting-started");
    assert_eq!(args.expect_status, 200);
}

#[test]
fn parses_default_fast_command() {
    let command = parse_command(vec!["fast".to_string()]).unwrap();

    assert_eq!(
        command,
        Command::Fast(FastArgs {
            config: "aegis.toml".to_string(),
            format: OutputFormat::Text,
            fail_fast: true,
        })
    );
}

#[test]
fn parses_init_force_command() {
    let command = parse_command(vec!["init".to_string(), "--force".to_string()]).unwrap();

    assert_eq!(command, Command::Init(InitArgs { force: true }));
}

#[test]
fn parses_test_alias_for_fast_command() {
    let command = parse_command(vec!["test".to_string()]).unwrap();

    assert_eq!(
        command,
        Command::Fast(FastArgs {
            config: "aegis.toml".to_string(),
            format: OutputFormat::Text,
            fail_fast: true,
        })
    );
}

#[test]
fn parses_fast_config_option() {
    let command = parse_command(vec![
        "fast".to_string(),
        "--config".to_string(),
        "react.aegis.toml".to_string(),
    ])
    .unwrap();

    assert_eq!(
        command,
        Command::Fast(FastArgs {
            config: "react.aegis.toml".to_string(),
            format: OutputFormat::Text,
            fail_fast: true,
        })
    );
}

#[test]
fn parses_fast_json_format_option() {
    let command = parse_command(vec![
        "fast".to_string(),
        "--config".to_string(),
        "react.aegis.toml".to_string(),
        "--format".to_string(),
        "json".to_string(),
    ])
    .unwrap();

    assert_eq!(
        command,
        Command::Fast(FastArgs {
            config: "react.aegis.toml".to_string(),
            format: OutputFormat::Json,
            fail_fast: true,
        })
    );
}

#[test]
fn parses_fast_fail_fast_false_option() {
    let command = parse_command(vec![
        "fast".to_string(),
        "--fail-fast".to_string(),
        "false".to_string(),
    ])
    .unwrap();

    assert_eq!(
        command,
        Command::Fast(FastArgs {
            config: "aegis.toml".to_string(),
            format: OutputFormat::Text,
            fail_fast: false,
        })
    );
}

#[test]
fn help_words_ask_for_help() {
    for word in ["-h", "--help", "help"] {
        assert_eq!(parse_command(args(&[word, "--bogus"])).unwrap(), Command::Help);
    }
}

#[test]
fn doctor_and_browser_commands() {
    assert_eq!(parse_command(args(&["doctor"])).unwrap(), Command::Doctor);
    assert_eq!(parse_command(args(&["browser"])).unwrap(), Command::Browser);
}

#[test]
fn unknown_command_is_refused() {
    let error = parse_command(args(&["deploy"])).unwrap_err();
    assert_eq!(error.message(), "unknown command 'deploy'. Run `aegis --help`.");
    assert!(!error.was_reported());
}

#[test]
fn test_alias_reads_the_same_options_as_fast() {
    let options = ["--config", "x.toml", "--format", "json", "--fail-fast", "false"];
    let mut fast = vec!["fast"];
    fast.extend(options);
    let mut test = vec!["test"];
    test.extend(options);
    assert_eq!(parse_command(args(&fast)).unwrap(), parse_command(args(&test)).unwrap());
}

#[test]
fn help_option_ends_the_options() {
    let (command, help) =
        aegis::cli::parse_invocation(&args(&["fast", "--help", "--bogus"])).unwrap();
    assert_eq!(command, Command::Fast(FastArgs::default()));
    assert_eq!(help, Some(aegis::HelpTopic::Fast));
    let (command, help) = aegis::cli::parse_invocation(&args(&["smoke", "-h", "--url"])).unwrap();
    assert_eq!(command, Command::Smoke(SmokeArgs::default()));
    assert_eq!(help, Some(aegis::HelpTopic::Smoke));
    let (command, help) = aegis::cli::parse_invocation(&args(&["init", "-f", "--help", "x"])).unwrap();
    assert_eq!(command, Command::Init(InitArgs { force: true }));
    assert_eq!(help, Some(aegis::HelpTopic::Init));
    let (_, help) = aegis::cli::parse_invocation(&args(&["fast"])).unwrap();
    assert_eq!(help, None);
}

#[test]
fn smoke_option_errors() {
    let cases = [
        (vec!["smoke", "--url"], "--url requires a value"),
        (vec!["smoke", "--status"], "--status requires a value"),
        (vec!["smoke", "--status", "abc"], "--status must be a valid HTTP status code"),
        (vec!["smoke", "--status", "70000"], "--status must be a valid HTTP status code"),
        (vec!["smoke", "--status", "-1"], "--status must be a valid HTTP status code"),
        (vec!["smoke", "--expect"], "--expect requires a value"),
        (vec!["smoke", "--expect-not"], "--expect-not requires a value"),
        (vec!["smoke", "--bogus"], "unknown smoke option '--bogus'. Run `aegis smoke --help`."),
    ];
    for (words, message) in cases {
        assert_eq!(parse_command(args(&words)).unwrap_err().message(), message);
    }
}

#[test]
fn smoke_status_accepts_what_u16_parsing_accepts() {
    for (text, value) in [("+404", 404u16), ("0200", 200), ("65535", 65535), ("0", 0)] {
        let Command::Smoke(smoke) = parse_command(args(&["smoke", "--status", text])).unwrap()
        else {
            panic!("expected smoke command");
        };
        assert_eq!(smoke.expect_status, value);
        assert_eq!(text.parse::<u16>().unwrap(), value);
    }
    for text in ["", "+", "65536", " 1", "1a"] {
        assert!(parse_command(args(&["smoke", "--status", text])).is_err());
        assert!(text.parse::<u16>().is_err());
    }
}

#[test]
fn smoke_expect_not_accumulates() {
    let Command::Smoke(smoke) =
        parse_command(args(&["smoke", "--expect-not", "a", "--expect-not", "b", "--expect", "c"]))
            .unwrap()
    else {
        panic!("expected smoke command");
    };
    assert_eq!(smoke.expect_not, vec!["a".to_string(), "b".to_string()]);
    assert_eq!(smoke.expect_text, Some("c".to_string()));
    assert_eq!(smoke.url, "http://127.0.0.1:3000/");
}

#[test]
fn fast_and_init_option_errors() {
    let cases = [
        (vec!["fast", "--config"], "--config requires a value"),
        (vec!["fast", "-c"], "--config requires a value"),
        (vec!["fast", "--format"], "--format requires a value"),
        (vec!["fast", "--format", "xml"], "unknown output format 'xml'. Expected 'text' or 'json'."),
        (vec!["fast", "--fail-fast"], "--fail-fast requires true or false"),
        (vec!["fast", "--fail-fast", "yes"], "--fail-fast must be true or false; got 'yes'"),
        (vec!["test", "--nope"], "unknown fast option '--nope'. Run `aegis fast --help`."),
        (vec!["init", "--nope"], "unknown init option '--nope'. Run `aegis init --help`."),
    ];
    for (words, message) in cases {
        assert_eq!(parse_command(args(&words)).unwrap_err().message(), message);
    }
}

#[test]
fn help_after_complete_options_ends_them() {
    let before = parse_command(args(&["smoke", "--url", "https://react.axonyx.dev", "--expect", "Axonyx"])).unwrap();
    let after = parse_command(args(&[
        "smoke", "--url", "https://react.axonyx.dev", "--expect", "Axonyx", "-h", "--status", "oops", "--bogus",
    ]))
    .unwrap();
    assert_eq!(before, after);

    let before = parse_command(args(&["fast", "--format", "json"])).unwrap();
    let after = parse_command(args(&["fast", "--format", "json", "--help", "--fail-fast", "maybe"])).unwrap();
    assert_eq!(before, after);

    let after = parse_command(args(&["init", "--force", "--help", "--nope"])).unwrap();
    assert_eq!(after, Command::Init(InitArgs { force: true }));
}
