//! The command dispatcher: one submit cycle snapshots the line buffer,
//! commits it to history, tokenizes it at single spaces, hands the tokens
//! to the `clap` command definition, and routes the outcome — matches to
//! the injected handler, help and version text and usage diagnostics to the
//! scrollback, internal format errors to a silent no-op. No branch ever
//! escalates past the cycle.

use vstd::prelude::*;
use vstd::string::StringExecFns;
use crate::input::{CommandInput, CommandInputState, InputModel};
use crate::output::{CommandOutput, CommandOutputState};
use crate::text::{lines_of, split_spaces};

verus! {

#[verifier::external_type_specification]
#[verifier::external_body]
pub struct ExApp<'a>(clap::App<'a>);

#[verifier::external_type_specification]
#[verifier::external_body]
pub struct ExArgMatches(clap::ArgMatches);

#[verifier::external_type_specification]
#[verifier::external_body]
pub struct ExClapError(clap::Error);

/// The four outcome classes of a failed parse, before any text is
/// rendered for them.
pub(crate) enum ErrorClass {
    Help,
    Version,
    Format,
    Usage,
}

/// A failed parse, classified and carrying the text it renders: requested
/// help text, requested version text, a silent internal format error, or a
/// usage error message.
#[derive(Debug, PartialEq, Eq)]
pub enum ParseFailure {
    HelpRequested(String),
    VersionRequested(String),
    FormatInternal,
    UsageError(String),
}

/// How one classified parse failure changes the scrollback: help and
/// version text are appended line by line, a usage error is appended as
/// `error: ` followed by the message, an internal format error changes
/// nothing.
pub open spec fn apply_failure(hist: Seq<Seq<char>>, f: ParseFailure) -> Seq<Seq<char>> {
    match f {
        ParseFailure::HelpRequested(t) => hist + lines_of(t@),
        ParseFailure::VersionRequested(t) => hist + lines_of(t@),
        ParseFailure::FormatInternal => hist,
        ParseFailure::UsageError(m) => hist + lines_of("error: "@ + m@),
    }
}

/// The result of one full dispatch cycle, carrying exactly the text that
/// was appended to the scrollback for it.
#[derive(Debug, PartialEq, Eq)]
pub enum DispatchOutcome {
    Handled(Vec<String>),
    HelpText(String),
    VersionText(String),
    UserError(String),
    Suppressed,
}

/// How one dispatch outcome changes the scrollback: handler lines are
/// appended verbatim one entry each, help, version and error text line by
/// line, and a suppressed outcome changes nothing.
pub open spec fn apply_outcome(hist: Seq<Seq<char>>, o: DispatchOutcome) -> Seq<Seq<char>> {
    match o {
        DispatchOutcome::Handled(lines) => hist + lines.deep_view(),
        DispatchOutcome::HelpText(t) => hist + lines_of(t@),
        DispatchOutcome::VersionText(t) => hist + lines_of(t@),
        DispatchOutcome::UserError(m) => hist + lines_of(m@),
        DispatchOutcome::Suppressed => hist,
    }
}

/// The injected decision point: the host's command logic, invoked once per
/// successful parse with the matches object, answering either output lines
/// or an error message.
pub trait Handler {
    fn handle(&mut self, matches: clap::ArgMatches) -> Result<Vec<String>, String>;
}

/// Relies on `clap::App::try_get_matches_from_mut`: parses the token list
/// against the opaque command definition; which result comes back is the
/// grammar's decision, so nothing further is assumed of it.
#[verifier::external_body]
fn try_parse_tokens<'a>(app: &mut clap::App<'a>, tokens: &Vec<String>) -> (r: Result<
    clap::ArgMatches,
    clap::Error,
>) {
    app.try_get_matches_from_mut(tokens.clone())
}

/// Relies on `clap::Error::kind`: tells the outcome classes of a parse
/// error apart — requested help, requested version, an internal format
/// error, and everything else as a usage error.
#[verifier::external_body]
fn error_class(e: &clap::Error) -> (r: ErrorClass) {
    match e.kind() {
        clap::ErrorKind::DisplayHelp => ErrorClass::Help,
        clap::ErrorKind::DisplayVersion => ErrorClass::Version,
        clap::ErrorKind::Format => ErrorClass::Format,
        _ => ErrorClass::Usage,
    }
}

/// Relies on `clap::App::write_help`: renders the command's help text into
/// an in-memory buffer; a write failure or non-UTF-8 help text yields the
/// empty string rather than a panic.
#[verifier::external_body]
fn render_help_text<'a>(app: &mut clap::App<'a>) -> (r: String) {
    let mut buf: Vec<u8> = Vec::new();
    if app.write_help(&mut buf).is_err() {
        return String::new();
    }
    match String::from_utf8(buf) {
        Ok(s) => s,
        Err(_) => String::new(),
    }
}

/// Relies on `clap::App::render_long_version`: the version text of the
/// command definition.
#[verifier::external_body]
fn render_version_text<'a>(app: &clap::App<'a>) -> (r: String) {
    app.render_long_version()
}

/// Relies on the `Display` impl of `clap::Error`: the user-facing message
/// of a parse error.
#[verifier::external_body]
fn error_message(e: &clap::Error) -> (r: String) {
    format!("{}", e)
}

/// Classify a failed parse and render the text that belongs to its class.
/// Which class comes back is the command definition's decision.
fn classify_failure<'a>(app: &mut clap::App<'a>, e: &clap::Error) -> (f: ParseFailure) {
    match error_class(e) {
        ErrorClass::Help => ParseFailure::HelpRequested(render_help_text(app)),
        ErrorClass::Version => ParseFailure::VersionRequested(render_version_text(app)),
        ErrorClass::Format => ParseFailure::FormatInternal,
        ErrorClass::Usage => ParseFailure::UsageError(error_message(e)),
    }
}

impl CommandOutputState {
    /// Record one classified parse failure in the scrollback, exactly as
    /// `apply_failure` states it.
    pub fn record_failure(&mut self, f: &ParseFailure)
        ensures
            final(self)@ == apply_failure(old(self)@, *f),
    {
        match f {
            ParseFailure::HelpRequested(t) => self.append_text(t.as_str()),
            ParseFailure::VersionRequested(t) => self.append_text(t.as_str()),
            ParseFailure::FormatInternal => (),
            ParseFailure::UsageError(m) => {
                let mut line = "error: ".to_owned();
                line.append(m.as_str());
                self.append_text(line.as_str());
            },
        }
    }
}

/// Input and output widgets plus their states, wired to a `clap` command
/// definition: the interactive front end of one embedded command line.
pub struct TuiClap<'a> {
    command_input_state: CommandInputState,
    command_output_state: CommandOutputState,
    command_input_widget: CommandInput,
    command_output_widget: CommandOutput,
    clap: clap::App<'a>,
}

impl<'a> TuiClap<'a> {
    /// The model of the line buffer and its history.
    pub closed spec fn input_model(&self) -> InputModel {
        self.command_input_state@
    }

    /// The model of the scrollback log.
    pub closed spec fn output_model(&self) -> Seq<Seq<char>> {
        self.command_output_state@
    }

    /// The model of the input widget's prompt.
    pub closed spec fn prompt_model(&self) -> Seq<char> {
        self.command_input_widget@
    }

    /// Wire a fresh front end to a `clap` command definition: empty line
    /// buffer, empty history, empty scrollback, empty prompt.
    pub fn from_app(app: clap::App<'a>) -> (r: TuiClap<'a>)
        ensures
            r.input_model().content =~= Seq::<char>::empty(),
            r.input_model().history =~= Seq::<Seq<char>>::empty(),
            r.input_model().index == 0,
            r.output_model() =~= Seq::<Seq<char>>::empty(),
            r.prompt_model() =~= Seq::<char>::empty(),
    {
        TuiClap {
            command_input_state: Default::default(),
            command_output_state: Default::default(),
            command_input_widget: Default::default(),
            command_output_widget: Default::default(),
            clap: app,
        }
    }

    /// Append `string` to the scrollback, one entry per line of it.
    pub fn write_to_output(&mut self, string: String)
        ensures
            final(self).output_model() == old(self).output_model() + lines_of(string@),
            final(self).input_model() == old(self).input_model(),
            final(self).prompt_model() == old(self).prompt_model(),
    {
        self.command_output_state.append_text(string.as_str());
    }

    /// Borrow the input widget's state, e.g. to feed key presses into it.
    pub fn state(&mut self) -> (r: &mut CommandInputState)
        ensures
            (*r)@ == old(self).input_model(),
            final(self).input_model() == (*final(r))@,
            final(self).output_model() == old(self).output_model(),
            final(self).prompt_model() == old(self).prompt_model(),
    {
        &mut self.command_input_state
    }

    /// One submit cycle without a handler: commit the line buffer to
    /// history, tokenize it at single spaces (a stated limitation: no
    /// quoting, so an argument cannot contain a literal space), parse, and
    /// on failure record the classified failure in the scrollback. On
    /// success the matches object is handed back untouched and the
    /// scrollback is left alone.
    pub fn parse(&mut self) -> (r: Result<clap::ArgMatches, ()>)
        ensures
            final(self).input_model().content =~= Seq::<char>::empty(),
            final(self).input_model().history == old(self).input_model().history.push(
                old(self).input_model().content,
            ),
            final(self).input_model().index == old(self).input_model().index,
            final(self).prompt_model() == old(self).prompt_model(),
            r is Ok ==> final(self).output_model() == old(self).output_model(),
            r is Err ==> (exists|f: ParseFailure|
                final(self).output_model() == apply_failure(old(self).output_model(), f)),
    {
        let command = self.command_input_state.enter();
        let tokens = split_spaces(command.as_str());
        match try_parse_tokens(&mut self.clap, &tokens) {
            Ok(matches) => Ok(matches),
            Err(e) => {
                let f = classify_failure(&mut self.clap, &e);
                self.command_output_state.record_failure(&f);
                proof {
                    assert(self.output_model() == apply_failure(old(self).output_model(), f));
                }
                Err(())
            },
        }
    }

    /// One full dispatch cycle: commit, tokenize, parse; invoke the
    /// injected handler on a successful parse and append its lines (or its
    /// error message) to the scrollback; on a failed parse record the
    /// classified failure. The returned outcome carries exactly the text
    /// that was appended, as `apply_outcome` states.
    pub fn dispatch<H: Handler>(&mut self, handler: &mut H) -> (o: DispatchOutcome)
        ensures
            final(self).input_model().content =~= Seq::<char>::empty(),
            final(self).input_model().history == old(self).input_model().history.push(
                old(self).input_model().content,
            ),
            final(self).input_model().index == old(self).input_model().index,
            final(self).prompt_model() == old(self).prompt_model(),
            final(self).output_model() == apply_outcome(old(self).output_model(), o),
    {
        let command = self.command_input_state.enter();
        let tokens = split_spaces(command.as_str());
        match try_parse_tokens(&mut self.clap, &tokens) {
            Ok(matches) => {
                match handler.handle(matches) {
                    Ok(lines) => {
                        self.command_output_state.push_lines(&lines);
                        DispatchOutcome::Handled(lines)
                    },
                    Err(message) => {
                        self.command_output_state.append_text(message.as_str());
                        DispatchOutcome::UserError(message)
                    },
                }
            },
            Err(e) => {
                let f = classify_failure(&mut self.clap, &e);
                match f {
                    ParseFailure::HelpRequested(t) => {
                        self.command_output_state.append_text(t.as_str());
                        DispatchOutcome::HelpText(t)
                    },
                    ParseFailure::VersionRequested(t) => {
                        self.command_output_state.append_text(t.as_str());
                        DispatchOutcome::VersionText(t)
                    },
                    ParseFailure::FormatInternal => DispatchOutcome::Suppressed,
                    ParseFailure::UsageError(m) => {
                        let mut message = "error: ".to_owned();
                        message.append(m.as_str());
                        self.command_output_state.append_text(message.as_str());
                        DispatchOutcome::UserError(message)
                    },
                }
            },
        }
    }

    /// Borrow the input widget, e.g. to set its prompt.
    pub fn input_widget(&mut self) -> (r: &mut CommandInput)
        ensures
            (*r)@ == old(self).prompt_model(),
            final(self).prompt_model() == (*final(r))@,
            final(self).input_model() == old(self).input_model(),
            final(self).output_model() == old(self).output_model(),
    {
        &mut self.command_input_widget
    }

    /// Borrow the output widget.
    pub fn output_widget(&mut self) -> (r: &mut CommandOutput)
        ensures
            final(self).input_model() == old(self).input_model(),
            final(self).output_model() == old(self).output_model(),
            final(self).prompt_model() == old(self).prompt_model(),
    {
        &mut self.command_output_widget
    }

    /// Read the scrollback state, e.g. to project its visible lines.
    pub fn output(&self) -> (r: &CommandOutputState)
        ensures
            r@ == self.output_model(),
    {
        &self.command_output_state
    }

    /// The one line the input widget draws: prompt, then live content.
    pub fn rendered_input_line(&self) -> (r: String)
        ensures
            r@ == self.prompt_model() + self.input_model().content,
    {
        self.command_input_widget.rendered_line(&self.command_input_state)
    }
}

} // verus!
