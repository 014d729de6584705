use shell_core::commands::{
    cd_outcome, cd_target, echo_command, exec_command, find_binary, pwd_outcome, spawn_outcome,
    type_command, CommandAction,
};
use shell_core::models::{Binary, CommandParseError, IOError};
use shell_core::numbers::parse_i32;

fn v(parts: &[&str]) -> Vec<String> {
    parts.iter().map(|s| s.to_string()).collect()
}

fn bins() -> Vec<Binary> {
    vec![
        Binary::new("/usr/bin/foo".to_string(), "foo".to_string()),
        Binary::new("/opt/tools/foo".to_string(), "foo".to_string()),
        Binary::new("/usr/bin/grep".to_string(), "grep".to_string()),
    ]
}

#[test]
fn type_reports_a_builtin() {
    let r = type_command(v(&["echo"]), &bins()).expect("builtin lookup");
    assert_eq!(r.stdout, Some("echo is a shell builtin".to_string()));
    assert_eq!(r.stderr, None);
}

#[test]
fn type_reports_every_builtin_name() {
    for name in ["exit", "echo", "type", "pwd", "cd"] {
        let r = type_command(v(&[name]), &Vec::new()).expect("builtin lookup");
        assert_eq!(r.stdout, Some(format!("{} is a shell builtin", name)));
    }
}

#[test]
fn type_reports_the_first_matching_binary() {
    let r = type_command(v(&["foo"]), &bins()).expect("path lookup");
    assert_eq!(r.stdout, Some("foo is /usr/bin/foo".to_string()));
    assert_eq!(r.stderr, None);
}

#[test]
fn type_of_an_unknown_name_fails() {
    let r = type_command(v(&["nonexistent_xyz"]), &bins());
    match r {
        Err(CommandParseError::CommandNotFound(m)) => {
            assert_eq!(m, "nonexistent_xyz: not found");
        }
        _ => panic!("a command-not-found failure was expected"),
    }
}

#[test]
fn type_without_an_argument_fails() {
    let r = type_command(Vec::new(), &bins());
    assert!(matches!(r, Err(CommandParseError::WrongArgsNum)));
}

#[test]
fn find_binary_returns_the_first_match() {
    let b = bins();
    let r = find_binary(&b, "foo").expect("a match");
    assert_eq!(r.path, "/usr/bin/foo");
    assert!(find_binary(&b, "bar").is_none());
}

#[test]
fn echo_joins_arguments_with_spaces() {
    let r = echo_command(v(&["hello", "world"]));
    assert_eq!(r.stdout, Some("hello world".to_string()));
    assert_eq!(r.stderr, None);
}

#[test]
fn echo_with_no_arguments_prints_nothing() {
    let r = echo_command(Vec::new());
    assert_eq!(r.stdout, None);
    assert_eq!(r.stderr, None);
    assert!(r.print().is_none());
}

#[test]
fn cd_target_resolves_a_lone_tilde_to_home() {
    assert_eq!(cd_target(v(&["~"]), "/home/u"), "/home/u");
    assert_eq!(cd_target(v(&[" ~ "]), "/home/u"), "/home/u");
}

#[test]
fn cd_target_resolves_a_leading_tilde_against_home() {
    assert_eq!(cd_target(v(&["~/work"]), "/home/u"), "/home/u/work");
}

#[test]
fn cd_target_keeps_other_paths_literal() {
    assert_eq!(cd_target(v(&["/tmp"]), "/home/u"), "/tmp");
    assert_eq!(cd_target(v(&["a/b"]), "/home/u"), "a/b");
}

#[test]
fn cd_failure_names_the_attempted_path() {
    let r = cd_outcome("/no/such/dir", false);
    match r {
        Err(CommandParseError::ComposableError(IOError::NoSuchDir(m))) => {
            assert_eq!(m, "cd: /no/such/dir: No such file or directory");
        }
        _ => panic!("a no-such-directory failure was expected"),
    }
}

#[test]
fn cd_success_is_silent() {
    let r = cd_outcome("/tmp", true).expect("success");
    assert_eq!(r.stdout, None);
    assert_eq!(r.stderr, None);
}

#[test]
fn pwd_outcome_reports_the_directory() {
    let r = pwd_outcome(Some("/var/log".to_string())).expect("success");
    assert_eq!(r.stdout, Some("/var/log".to_string()));
    assert_eq!(r.stderr, None);
}

#[test]
fn pwd_outcome_without_a_directory_fails() {
    let r = pwd_outcome(None);
    match r {
        Err(CommandParseError::ComposableError(IOError::NoSuchDir(m))) => {
            assert_eq!(m, "Incorrect directory");
        }
        _ => panic!("a no-such-directory failure was expected"),
    }
}

#[test]
fn spawn_outcome_trims_both_channels() {
    let r = spawn_outcome(Ok(("out\n".to_string(), "  err \n".to_string()))).expect("success");
    assert_eq!(r.stdout, Some("out".to_string()));
    assert_eq!(r.stderr, Some("err".to_string()));
}

#[test]
fn spawn_outcome_normalizes_empty_captures() {
    let r = spawn_outcome(Ok(("\n".to_string(), "".to_string()))).expect("success");
    assert_eq!(r.stdout, None);
    assert_eq!(r.stderr, None);
}

#[test]
fn spawn_failure_surfaces_through_the_composed_channel() {
    let r = spawn_outcome(Err("boom".to_string()));
    match r {
        Err(CommandParseError::ComposableError(IOError::StdError(m))) => {
            assert_eq!(m, "boom");
        }
        _ => panic!("a composed system failure was expected"),
    }
}

#[test]
fn exit_takes_its_argument_as_the_status() {
    assert!(matches!(
        exec_command(v(&["exit", "42"]), &bins(), "/home/u"),
        CommandAction::Exit(42)
    ));
}

#[test]
fn exit_defaults_to_minus_one() {
    let home = "/home/u";
    assert!(matches!(exec_command(v(&["exit"]), &bins(), home), CommandAction::Exit(-1)));
    assert!(matches!(
        exec_command(v(&["exit", "xyz"]), &bins(), home),
        CommandAction::Exit(-1)
    ));
    assert!(matches!(
        exec_command(v(&["exit", "99999999999"]), &bins(), home),
        CommandAction::Exit(-1)
    ));
}

#[test]
fn dispatch_routes_each_builtin() {
    let b = bins();
    let home = "/home/u";
    match exec_command(v(&["echo", "hi"]), &b, home) {
        CommandAction::Finished(Ok(s)) => assert_eq!(s.stdout, Some("hi".to_string())),
        _ => panic!("echo should finish at once"),
    }
    match exec_command(v(&["type", "pwd"]), &b, home) {
        CommandAction::Finished(Ok(s)) => {
            assert_eq!(s.stdout, Some("pwd is a shell builtin".to_string()))
        }
        _ => panic!("type should finish at once"),
    }
    assert!(matches!(exec_command(v(&["pwd"]), &b, home), CommandAction::QueryWorkdir));
    match exec_command(v(&["cd", "~"]), &b, home) {
        CommandAction::ChangeDir(p) => assert_eq!(p, "/home/u"),
        _ => panic!("cd should hand back the resolved target"),
    }
}

#[test]
fn dispatch_of_an_empty_command_finishes_empty() {
    match exec_command(Vec::new(), &bins(), "/home/u") {
        CommandAction::Finished(Ok(s)) => {
            assert_eq!(s.stdout, None);
            assert_eq!(s.stderr, None);
        }
        _ => panic!("an empty command should finish with an empty stream"),
    }
}

#[test]
fn dispatch_spawns_a_known_program_with_its_arguments() {
    match exec_command(v(&["grep", "-c", "x"]), &bins(), "/home/u") {
        CommandAction::Spawn(prog, args) => {
            assert_eq!(prog, "grep");
            assert_eq!(args, vec!["-c", "x"]);
        }
        _ => panic!("a known program should be spawned"),
    }
}

#[test]
fn dispatch_of_an_unknown_program_fails_as_an_io_error() {
    match exec_command(v(&["nosuch"]), &bins(), "/home/u") {
        CommandAction::Finished(Err(CommandParseError::ComposableError(IOError::NoSuchDir(m)))) => {
            assert_eq!(m, "nosuch: not found");
        }
        _ => panic!("an unknown program is a composed not-found failure"),
    }
}

#[test]
fn parse_i32_reads_signed_decimals() {
    assert_eq!(parse_i32("42"), Some(42));
    assert_eq!(parse_i32("-1"), Some(-1));
    assert_eq!(parse_i32("+7"), Some(7));
    assert_eq!(parse_i32("0"), Some(0));
    assert_eq!(parse_i32("2147483647"), Some(i32::MAX));
    assert_eq!(parse_i32("-2147483648"), Some(i32::MIN));
}

#[test]
fn parse_i32_rejects_malformed_and_out_of_range_input() {
    assert_eq!(parse_i32(""), None);
    assert_eq!(parse_i32("-"), None);
    assert_eq!(parse_i32("+"), None);
    assert_eq!(parse_i32("12a"), None);
    assert_eq!(parse_i32(" 1"), None);
    assert_eq!(parse_i32("2147483648"), None);
    assert_eq!(parse_i32("-2147483649"), None);
    assert_eq!(parse_i32("99999999999999999999"), None);
}

#[test]
fn error_messages_render_as_the_original_text() {
    let e = CommandParseError::CommandNotFound("x: not found".to_string());
    assert_eq!(e.message(), "x: not found");
    assert_eq!(CommandParseError::WrongArgsNum.message(), "");
    let e = CommandParseError::ComposableError(IOError::NoSuchDir("no dir".to_string()));
    assert_eq!(e.message(), "no dir");
    let e = IOError::StdError("os failure".to_string());
    assert_eq!(e.message(), "os failure");
}
