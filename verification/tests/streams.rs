use shell_core::commands::CommandAction;
use shell_core::models::{redirect_payload, IOStream, IOStreamType, WriteMode};
use shell_core::parsers::parse_input;

#[test]
fn empty_captures_normalize_to_absent_channels() {
    let s = IOStream::new("", "");
    assert_eq!(s.stdout, None);
    assert_eq!(s.stderr, None);
    let s = IOStream::new("a", "");
    assert_eq!(s.stdout, Some("a".to_string()));
    assert_eq!(s.stderr, None);
    let s = IOStream::new("", "b");
    assert_eq!(s.stdout, None);
    assert_eq!(s.stderr, Some("b".to_string()));
}

#[test]
fn from_options_keeps_the_channels_as_given() {
    let s = IOStream::from_options(Some(String::new()), None);
    assert_eq!(s.get_stdout(), Some(String::new()));
    assert_eq!(s.get_stderr(), None);
}

#[test]
fn new_empty_has_no_channels() {
    let s = IOStream::new_empty();
    assert_eq!(s.get_stdout(), None);
    assert_eq!(s.get_stderr(), None);
    assert!(s.print().is_none());
}

#[test]
fn display_prefers_stdout_over_stderr() {
    let s = IOStream::new("out", "err");
    assert_eq!(s.print(), Some(&"out".to_string()));
    let s = IOStream::new("", "err");
    assert_eq!(s.print(), Some(&"err".to_string()));
    let s = IOStream::new("", "");
    assert_eq!(s.print(), None);
}

#[test]
fn narrowing_clears_only_the_written_channel() {
    let s = IOStream::new("out", "err");
    let after = s.narrow(&IOStreamType::StdOut);
    assert_eq!(after.stdout, None);
    assert_eq!(after.stderr, Some("err".to_string()));
    let after = s.narrow(&IOStreamType::StdErr);
    assert_eq!(after.stdout, Some("out".to_string()));
    assert_eq!(after.stderr, None);
}

#[test]
fn select_content_reads_an_absent_channel_as_empty() {
    let s = IOStream::new("out", "");
    assert_eq!(s.select_content(&IOStreamType::StdOut), "out");
    assert_eq!(s.select_content(&IOStreamType::StdErr), "");
}

#[test]
fn a_fresh_file_gets_the_content_without_a_separator() {
    assert_eq!(redirect_payload("hello", true), "hello");
}

#[test]
fn an_existing_file_gets_a_newline_before_the_content() {
    assert_eq!(redirect_payload("hello", false), "\nhello");
}

#[test]
fn a_full_line_plans_the_command_and_the_redirection() {
    let plan = parse_input("echo hello > out.txt", &Vec::new(), "/home/u");
    match plan.action {
        CommandAction::Finished(Ok(s)) => assert_eq!(s.stdout, Some("hello".to_string())),
        _ => panic!("echo should finish at once"),
    }
    let r = plan.redirect.expect("a redirection was expected");
    assert_eq!(r.target, IOStreamType::StdOut);
    assert_eq!(r.path, "out.txt");
    assert_eq!(r.mode, WriteMode::CreateNew);
}

#[test]
fn a_blank_line_plans_nothing() {
    let plan = parse_input(" \t ", &Vec::new(), "/home/u");
    match plan.action {
        CommandAction::Finished(Ok(s)) => {
            assert_eq!(s.stdout, None);
            assert_eq!(s.stderr, None);
        }
        _ => panic!("a blank line should finish with an empty stream"),
    }
    assert!(plan.redirect.is_none());
}

#[test]
fn a_quoted_line_reaches_the_dispatcher_resolved() {
    let plan = parse_input("echo 'a  b' \"c\\\"d\"", &Vec::new(), "/home/u");
    match plan.action {
        CommandAction::Finished(Ok(s)) => {
            assert_eq!(s.stdout, Some("a  b c\"d".to_string()));
        }
        _ => panic!("echo should finish at once"),
    }
}
