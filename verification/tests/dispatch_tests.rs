use tui_clap::dispatch::{DispatchOutcome, Handler, ParseFailure, TuiClap};
use tui_clap::output::CommandOutputState;

struct RecordingHandler {
    calls: usize,
    reply: Result<Vec<String>, String>,
}

impl Handler for RecordingHandler {
    fn handle(&mut self, _matches: clap::ArgMatches) -> Result<Vec<String>, String> {
        self.calls += 1;
        self.reply.clone()
    }
}

fn type_str(tc: &mut TuiClap, s: &str) {
    for c in s.chars() {
        tc.state().add_char(c);
    }
}

fn demo_app() -> clap::Command<'static> {
    clap::Command::new("demo").version("1.2.3").arg(clap::Arg::new("name").index(1))
}

#[test]
fn help_request_appends_help_text_and_skips_handler() {
    let mut tc = TuiClap::from_app(demo_app());
    let mut handler = RecordingHandler { calls: 0, reply: Ok(vec![]) };
    type_str(&mut tc, "demo --help");
    let outcome = tc.dispatch(&mut handler);
    assert_eq!(handler.calls, 0);
    let help = match outcome {
        DispatchOutcome::HelpText(t) => t,
        other => panic!("expected help text, got {:?}", other),
    };
    assert!(help.contains("USAGE"));
    assert!(tc.output().len() > 0);
    let mut joined = String::new();
    for i in 0..tc.output().len() {
        joined.push_str(tc.output().line_at(i).as_str());
        joined.push('\n');
    }
    assert!(joined.contains("USAGE"));
    assert!(joined.contains("demo"));
}

#[test]
fn version_request_appends_version_text_and_skips_handler() {
    let mut tc = TuiClap::from_app(demo_app());
    let mut handler = RecordingHandler { calls: 0, reply: Ok(vec![]) };
    type_str(&mut tc, "demo --version");
    let outcome = tc.dispatch(&mut handler);
    assert_eq!(handler.calls, 0);
    match outcome {
        DispatchOutcome::VersionText(t) => assert!(t.contains("1.2.3")),
        other => panic!("expected version text, got {:?}", other),
    }
    assert!(tc.output().len() > 0);
    assert!(tc.output().line_at(0).contains("1.2.3"));
}

#[test]
fn unrecognized_flag_appends_one_error_diagnostic_and_skips_handler() {
    let mut tc = TuiClap::from_app(demo_app());
    let mut handler = RecordingHandler { calls: 0, reply: Ok(vec![]) };
    type_str(&mut tc, "demo --nope");
    let outcome = tc.dispatch(&mut handler);
    assert_eq!(handler.calls, 0);
    assert!(matches!(outcome, DispatchOutcome::UserError(_)));
    assert!(tc.output().len() > 0);
    assert!(tc.output().line_at(0).starts_with("error: "));
}

#[test]
fn successful_parse_invokes_handler_once_and_appends_its_lines() {
    let mut tc = TuiClap::from_app(demo_app());
    let reply = Ok(vec![String::from("first"), String::from("second")]);
    let mut handler = RecordingHandler { calls: 0, reply };
    type_str(&mut tc, "demo hello");
    let outcome = tc.dispatch(&mut handler);
    assert_eq!(handler.calls, 1);
    assert_eq!(
        outcome,
        DispatchOutcome::Handled(vec![String::from("first"), String::from("second")])
    );
    assert_eq!(tc.output().len(), 2);
    assert_eq!(tc.output().line_at(0).as_str(), "first");
    assert_eq!(tc.output().line_at(1).as_str(), "second");
}

#[test]
fn handler_error_message_is_appended_verbatim() {
    let mut tc = TuiClap::from_app(demo_app());
    let mut handler = RecordingHandler { calls: 0, reply: Err(String::from("it broke")) };
    type_str(&mut tc, "demo hello");
    let outcome = tc.dispatch(&mut handler);
    assert_eq!(handler.calls, 1);
    assert_eq!(outcome, DispatchOutcome::UserError(String::from("it broke")));
    assert_eq!(tc.output().len(), 1);
    assert_eq!(tc.output().line_at(0).as_str(), "it broke");
}

#[test]
fn parse_commits_the_line_and_reports_matches() {
    let mut tc = TuiClap::from_app(demo_app());
    type_str(&mut tc, "demo hello");
    let parsed = tc.parse();
    let matches = parsed.expect("well-formed command line should parse");
    assert_eq!(matches.value_of("name"), Some("hello"));
    assert_eq!(tc.state().content().as_str(), "");
    assert_eq!(tc.state().history_len(), 1);
    assert_eq!(tc.state().history_at(0).as_str(), "demo hello");
    assert_eq!(tc.output().len(), 0);
}

#[test]
fn failed_parse_commits_the_line_too() {
    let mut tc = TuiClap::from_app(demo_app());
    type_str(&mut tc, "demo --nope");
    let parsed = tc.parse();
    assert!(parsed.is_err());
    assert_eq!(tc.state().content().as_str(), "");
    assert_eq!(tc.state().history_len(), 1);
    assert_eq!(tc.state().history_at(0).as_str(), "demo --nope");
    assert!(tc.output().len() > 0);
    assert!(tc.output().line_at(0).starts_with("error: "));
}

#[test]
fn format_internal_failure_is_suppressed() {
    let mut out = CommandOutputState::default();
    out.record_failure(&ParseFailure::FormatInternal);
    assert_eq!(out.len(), 0);
}

#[test]
fn recorded_failures_render_their_class() {
    let mut out = CommandOutputState::default();
    out.record_failure(&ParseFailure::UsageError(String::from("boom")));
    assert_eq!(out.len(), 1);
    assert_eq!(out.line_at(0).as_str(), "error: boom");
    out.record_failure(&ParseFailure::HelpRequested(String::from("help me\nplease")));
    assert_eq!(out.len(), 3);
    assert_eq!(out.line_at(1).as_str(), "help me");
    assert_eq!(out.line_at(2).as_str(), "please");
    out.record_failure(&ParseFailure::VersionRequested(String::from("demo 9.9")));
    assert_eq!(out.len(), 4);
    assert_eq!(out.line_at(3).as_str(), "demo 9.9");
}

#[test]
fn write_to_output_splits_lines() {
    let mut tc = TuiClap::from_app(demo_app());
    tc.write_to_output(String::from("first\nsecond"));
    assert_eq!(tc.output().len(), 2);
    assert_eq!(tc.output().line_at(0).as_str(), "first");
    assert_eq!(tc.output().line_at(1).as_str(), "second");
}

#[test]
fn prompt_and_rendered_input_line() {
    let mut tc = TuiClap::from_app(demo_app());
    tc.input_widget().prompt("$ ");
    type_str(&mut tc, "demo");
    assert_eq!(tc.rendered_input_line().as_str(), "$ demo");
}

#[test]
fn empty_submit_is_committed_and_still_parsed() {
    let mut tc = TuiClap::from_app(clap::Command::new("demo"));
    let parsed = tc.parse();
    assert_eq!(tc.state().history_len(), 1);
    assert_eq!(tc.state().history_at(0).as_str(), "");
    assert_eq!(tc.state().content().as_str(), "");
    // Whether an empty token list parses is the grammar's decision; for a
    // bare command it does, and nothing is written to the scrollback.
    assert!(parsed.is_ok());
    assert_eq!(tc.output().len(), 0);
}
