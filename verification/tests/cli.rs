use antigravity_quota::cli::{
    expand_home, parse_args, parse_command, parse_number, resolve_token_path, CliError, Location,
};
use antigravity_quota::{Command, Options, OutputFormat};

fn args(list: &[&str]) -> Vec<String> {
    list.iter().map(|arg| arg.to_string()).collect()
}

fn under_home(steps: &[&str]) -> Location {
    Location::UnderHome(args(steps))
}

#[test]
fn rejects_invalid_cli_options() {
    assert!(parse_args(&["--unknown".into()]).is_err());
    assert!(parse_args(&["--token-file".into(), "--json".into()]).is_err());
    assert!(parse_args(&["--json".into(), "--raw".into()]).is_err());
    assert_eq!(
        parse_args(&["--token-file".into(), "~/token.json".into()]).unwrap().token_file.as_deref(),
        Some("~/token.json")
    );
}

#[test]
fn determines_output_format() {
    assert_eq!(Options::default().output_format(), OutputFormat::Human);
    assert_eq!(
        Options { json_output: true, ..Default::default() }.output_format(),
        OutputFormat::Json
    );
    assert_eq!(
        Options { raw_output: true, ..Default::default() }.output_format(),
        OutputFormat::Raw
    );
}

#[test]
fn expands_home_prefix() {
    assert_eq!(expand_home("~/test/path.json", true), under_home(&["test/path.json"]));
    assert_eq!(
        expand_home("/absolute/path.json", true),
        Location::At("/absolute/path.json".to_string())
    );
}

#[test]
fn parses_history_command() {
    let cmd = parse_command(&["history".into()]).unwrap();
    assert_eq!(cmd, Command::History { last: 20 });
}

#[test]
fn parses_history_with_last() {
    let cmd = parse_command(&["history".into(), "--last".into(), "5".into()]).unwrap();
    assert_eq!(cmd, Command::History { last: 5 });
}

#[test]
fn parses_check_command_as_default() {
    let cmd = parse_command(&["--json".into()]).unwrap();
    assert_eq!(cmd, Command::Check(Options { json_output: true, ..Default::default() }));
}

#[test]
fn rejects_history_last_zero() {
    assert!(parse_command(&["history".into(), "--last".into(), "0".into()]).is_err());
}

#[test]
fn no_argument_checks_quota_for_people() {
    assert_eq!(parse_command(&[]).unwrap(), Command::Check(Options::default()));
    assert_eq!(OutputFormat::default(), OutputFormat::Human);
}

#[test]
fn names_the_argument_that_does_not_belong() {
    assert_eq!(
        parse_args(&args(&["--json", "--verbose", "--raw"])),
        Err(CliError::UnknownArgument("--verbose".to_string()))
    );
    assert_eq!(
        Options::parse(&args(&["--token-file"])),
        Err(CliError::TokenFileNeedsPath)
    );
    assert_eq!(parse_args(&args(&["--token-file", ""])), Err(CliError::TokenFileNeedsPath));
    assert_eq!(
        parse_args(&args(&["--token-file", "a", "--token-file", "b"])),
        Err(CliError::TokenFileRepeated)
    );
    assert_eq!(parse_args(&args(&["--raw", "--json"])), Err(CliError::JsonWithRaw));
    assert_eq!(
        parse_command(&args(&["--json", "history"])),
        Err(CliError::UnknownArgument("history".to_string()))
    );
}

#[test]
fn repeated_flags_are_harmless() {
    let options = parse_args(&args(&["--raw", "--raw", "--token-file", "t.json"])).unwrap();
    assert_eq!(
        options,
        Options { json_output: false, raw_output: true, token_file: Some("t.json".to_string()) }
    );
}

#[test]
fn history_arguments_are_checked_in_order() {
    assert_eq!(
        parse_command(&args(&["history", "--last", "5", "--last", "7"])),
        Ok(Command::History { last: 7 })
    );
    assert_eq!(parse_command(&args(&["history", "--last"])), Err(CliError::LastNeedsNumber));
    assert_eq!(
        parse_command(&args(&["history", "--last", "-1"])),
        Err(CliError::LastNotANumber("-1".to_string()))
    );
    assert_eq!(
        parse_command(&args(&["history", "--last", "0", "--bogus"])),
        Err(CliError::LastIsZero)
    );
    assert_eq!(
        parse_command(&args(&["history", "--json"])),
        Err(CliError::UnknownHistoryArgument("--json".to_string()))
    );
}

#[test]
fn numbers_are_read_as_the_standard_library_reads_them() {
    for text in [
        "", "+", "-", "0", "7", "+7", "-7", "++7", "007", "4294967295", "4294967296", "99999999999",
        "00000000000000000042", " 1", "1 ", "1_000", "0x10", "12a", "a12", "\u{664}",
    ] {
        assert_eq!(parse_number(text), text.parse::<u32>().ok(), "{:?}", text);
    }
}

#[test]
fn token_file_is_looked_for_in_order() {
    assert_eq!(
        resolve_token_path(Some("~/a.json"), Some("/b.json"), true),
        Ok(under_home(&["a.json"]))
    );
    assert_eq!(
        resolve_token_path(None, Some("/b.json"), true),
        Ok(Location::At("/b.json".to_string()))
    );
    assert_eq!(
        resolve_token_path(None, Some(" \t"), true),
        Ok(under_home(&[".gemini", "antigravity-acp", "acp_token.json"]))
    );
    assert_eq!(
        resolve_token_path(None, None, true),
        Ok(under_home(&[".gemini", "antigravity-acp", "acp_token.json"]))
    );
    assert_eq!(resolve_token_path(None, None, false), Err(CliError::HomeNotSet));
    assert_eq!(
        resolve_token_path(Some("~/a.json"), None, false),
        Ok(Location::At("~/a.json".to_string()))
    );
    let options = Options { token_file: Some("x".to_string()), ..Default::default() };
    assert_eq!(
        options.resolve_token_path(Some("/b.json"), false),
        Ok(Location::At("x".to_string()))
    );
    assert_eq!(expand_home("~", true), Location::At("~".to_string()));
    assert_eq!(expand_home("~/", true), under_home(&[""]));
}

#[test]
fn errors_are_worded_for_the_user() {
    let words = |error: CliError| error.message();
    assert_eq!(words(CliError::TokenFileNeedsPath), "--token-file requires a path");
    assert_eq!(words(CliError::TokenFileRepeated), "--token-file may only be specified once");
    assert_eq!(words(CliError::UnknownArgument("-x".into())), "unknown argument: -x");
    assert_eq!(words(CliError::JsonWithRaw), "--json and --raw cannot be used together");
    assert_eq!(words(CliError::LastNeedsNumber), "--last requires a number");
    assert_eq!(
        words(CliError::LastNotANumber("x".into())),
        "--last value must be a positive integer: x"
    );
    assert_eq!(words(CliError::LastIsZero), "--last value must be at least 1");
    assert_eq!(
        words(CliError::UnknownHistoryArgument("-x".into())),
        "unknown history argument: -x"
    );
    assert_eq!(words(CliError::HomeNotSet), "HOME is not set");
}
