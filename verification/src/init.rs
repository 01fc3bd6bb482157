//! Setting up a directory: the questions that are asked, in order, and the
//! configuration file that the answers make.
//!
//! The questions form a small state machine. The caller shows the prompt of
//! the current stage, reads one line and hands it to [`InitSession::answer`],
//! until the stage is [`InitStage::Done`]. Two stages repeat: the default
//! command is asked again after an answer that is no command, and exclusion
//! patterns are asked for until an empty line ends them.

use vstd::prelude::*;
use crate::text::{lemma_texts_push, opt_text, same_text, texts};

verus! {

/// The question that is asked next.
#[derive(Clone, Copy, Debug, PartialEq, Eq, Structural)]
pub enum InitStage {
    Server,
    Port,
    TargetDir,
    User,
    DefaultCommand,
    Exclude,
    /// Every question is answered.
    Done,
}

/// The answers so far. An empty text stands for a question left open.
#[derive(Clone, Debug, PartialEq, Eq, Default)]
pub struct InitAnswers {
    pub server: String,
    /// The port as it was typed; it is not checked.
    pub port: String,
    pub target_dir: String,
    pub user: String,
    /// `push` or `sync`, where one was chosen.
    pub default: Option<String>,
    pub exclude: Vec<String>,
}

/// The mathematical content of [`InitAnswers`].
pub struct InitAnswersView {
    pub server: Seq<char>,
    pub port: Seq<char>,
    pub target_dir: Seq<char>,
    pub user: Seq<char>,
    pub default: Option<Seq<char>>,
    pub exclude: Seq<Seq<char>>,
}

impl View for InitAnswers {
    type V = InitAnswersView;

    open spec fn view(&self) -> InitAnswersView {
        InitAnswersView {
            server: self.server@,
            port: self.port@,
            target_dir: self.target_dir@,
            user: self.user@,
            default: opt_text(self.default),
            exclude: texts(self.exclude@),
        }
    }
}

/// A dialogue in progress.
#[derive(Clone, Debug, PartialEq, Eq)]
pub struct InitSession {
    pub stage: InitStage,
    pub answers: InitAnswers,
}

/// The mathematical content of an [`InitSession`].
pub struct InitSessionView {
    pub stage: InitStage,
    pub answers: InitAnswersView,
}

impl View for InitSession {
    type V = InitSessionView;

    open spec fn view(&self) -> InitSessionView {
        InitSessionView { stage: self.stage, answers: self.answers@ }
    }
}

/// How an answer was taken.
#[derive(Clone, Copy, Debug, PartialEq, Eq, Structural)]
pub enum Reply {
    /// The answer was taken and the dialogue moved on.
    Accepted,
    /// The answer names no command. The question is asked again.
    UnknownCommand,
}

/// The text shown before the answer to the question of `stage` is read;
/// empty once every question is answered.
pub open spec fn prompt_text(stage: InitStage) -> Seq<char> {
    match stage {
        InitStage::Server => "Server address: "@,
        InitStage::Port => "port: "@,
        InitStage::TargetDir => "Target directory on the server: "@,
        InitStage::User => "User on the server: "@,
        InitStage::DefaultCommand => "Use a command by default? (push/sync): "@,
        InitStage::Exclude => "Exclude pattern? : "@,
        InitStage::Done => ""@,
    }
}

/// Whether `line` is accepted as the default command: `push`, `sync` or nothing.
pub open spec fn command_answer(line: Seq<char>) -> bool {
    line == "push"@ || line == "sync"@ || line.len() == 0
}

impl InitSessionView {
    /// The dialogue before the first question.
    pub open spec fn start() -> InitSessionView {
        InitSessionView {
            stage: InitStage::Server,
            answers: InitAnswersView {
                server: Seq::empty(),
                port: Seq::empty(),
                target_dir: Seq::empty(),
                user: Seq::empty(),
                default: None,
                exclude: Seq::empty(),
            },
        }
    }

    /// The dialogue after `line` was given as the answer to the current question.
    pub open spec fn after(self, line: Seq<char>) -> InitSessionView {
        let a = self.answers;
        match self.stage {
            InitStage::Server => InitSessionView {
                stage: InitStage::Port,
                answers: InitAnswersView { server: line, ..a },
            },
            InitStage::Port => InitSessionView {
                stage: InitStage::TargetDir,
                answers: InitAnswersView { port: line, ..a },
            },
            InitStage::TargetDir => InitSessionView {
                stage: InitStage::User,
                answers: InitAnswersView { target_dir: line, ..a },
            },
            InitStage::User => InitSessionView {
                stage: InitStage::DefaultCommand,
                answers: InitAnswersView { user: line, ..a },
            },
            InitStage::DefaultCommand => if line.len() == 0 {
                InitSessionView { stage: InitStage::Exclude, answers: a }
            } else if command_answer(line) {
                InitSessionView {
                    stage: InitStage::Exclude,
                    answers: InitAnswersView { default: Some(line), ..a },
                }
            } else {
                self
            },
            InitStage::Exclude => if line.len() == 0 {
                InitSessionView { stage: InitStage::Done, answers: a }
            } else {
                InitSessionView {
                    stage: InitStage::Exclude,
                    answers: InitAnswersView { exclude: a.exclude.push(line), ..a },
                }
            },
            InitStage::Done => self,
        }
    }

    /// How `line` is taken as the answer to the current question.
    pub open spec fn reply_to(self, line: Seq<char>) -> Reply {
        if self.stage == InitStage::DefaultCommand && !command_answer(line) {
            Reply::UnknownCommand
        } else {
            Reply::Accepted
        }
    }
}

/// One line of the file: a key and its text in double quotes.
pub open spec fn text_entry(key: Seq<char>, value: Seq<char>) -> Seq<char> {
    key + " = \""@ + value + "\"\n"@
}

/// One line of the file for a text that may be left open: nothing for the empty text.
pub open spec fn optional_entry(key: Seq<char>, value: Seq<char>) -> Seq<char> {
    if value.len() == 0 {
        Seq::empty()
    } else {
        text_entry(key, value)
    }
}

/// The line of the port, which is written as it was typed, without quotes.
pub open spec fn port_entry(port: Seq<char>) -> Seq<char> {
    if port.len() == 0 {
        Seq::empty()
    } else {
        "port = "@ + port + "\n"@
    }
}

/// The line of the default command.
pub open spec fn default_entry(default: Option<Seq<char>>) -> Seq<char> {
    match default {
        Some(d) => text_entry("default"@, d),
        None => Seq::empty(),
    }
}

/// The lines of the patterns that another pattern follows: each in quotes,
/// indented, with a comma.
pub open spec fn pattern_lines(patterns: Seq<Seq<char>>) -> Seq<char>
    decreases patterns.len(),
{
    if patterns.len() == 0 {
        Seq::empty()
    } else {
        pattern_lines(patterns.drop_last()) + "    \""@ + patterns.last() + "\",\n"@
    }
}

/// The list of exclusion patterns, one line each, the last without a comma;
/// nothing where there is no pattern.
pub open spec fn exclude_entry(patterns: Seq<Seq<char>>) -> Seq<char> {
    if patterns.len() == 0 {
        Seq::empty()
    } else {
        "exclude = [\n"@ + pattern_lines(patterns.drop_last()) + "    \""@ + patterns.last()
            + "\"\n"@ + "]\n"@
    }
}

/// The configuration file that the answers make. Only what was answered
/// is written: a question left open leaves no line.
pub open spec fn config_text(a: InitAnswersView) -> Seq<char> {
    optional_entry("server"@, a.server) + port_entry(a.port) + optional_entry("user"@, a.user)
        + optional_entry("target_dir"@, a.target_dir) + default_entry(a.default) + exclude_entry(
        a.exclude,
    )
}

/// Appends one line of the file to `out`: a key and its text in double quotes.
fn append_entry(out: &mut String, key: &str, value: &str)
    ensures
        final(out)@ == old(out)@ + text_entry(key@, value@),
{
    out.append(key);
    out.append(" = \"");
    out.append(value);
    out.append("\"\n");
    assert(out@ =~= old(out)@ + text_entry(key@, value@));
}

/// Appends the line of a text that may be left open.
fn append_optional(out: &mut String, key: &str, value: &str)
    ensures
        final(out)@ == old(out)@ + optional_entry(key@, value@),
{
    if !value.is_empty() {
        append_entry(out, key, value);
    }
    assert(out@ =~= old(out)@ + optional_entry(key@, value@));
}

/// Appends the line of the port.
fn append_port(out: &mut String, port: &str)
    ensures
        final(out)@ == old(out)@ + port_entry(port@),
{
    if !port.is_empty() {
        out.append("port = ");
        out.append(port);
        out.append("\n");
    }
    assert(out@ =~= old(out)@ + port_entry(port@));
}

/// Appends the line of the default command.
fn append_default(out: &mut String, default: &Option<String>)
    ensures
        final(out)@ == old(out)@ + default_entry(opt_text(*default)),
{
    if let Some(d) = default {
        append_entry(out, "default", d.as_str());
    }
    assert(out@ =~= old(out)@ + default_entry(opt_text(*default)));
}

/// Appends the list of exclusion patterns.
fn append_patterns(out: &mut String, exclude: &Vec<String>)
    ensures
        final(out)@ == old(out)@ + exclude_entry(texts(exclude@)),
{
    let n: usize = exclude.len();
    let ghost patterns = texts(exclude@);
    if n > 0 {
        out.append("exclude = [\n");
        let ghost opened = out@;
        let mut i: usize = 0;
        assert(patterns.take(0) =~= Seq::<Seq<char>>::empty());
        while i < n - 1
            invariant
                0 < n,
                n == exclude.len(),
                i <= n - 1,
                patterns == texts(exclude@),
                out@ == opened + pattern_lines(patterns.take(i as int)),
            decreases n - 1 - i,
        {
            out.append("    \"");
            out.append(exclude[i].as_str());
            out.append("\",\n");
            proof {
                let longer = patterns.take(i + 1);
                assert(longer.drop_last() =~= patterns.take(i as int));
                assert(longer.last() == patterns[i as int]);
                assert(out@ =~= opened + pattern_lines(longer));
            }
            i += 1;
        }
        assert(patterns.take(n - 1) =~= patterns.drop_last());
        out.append("    \"");
        out.append(exclude[n - 1].as_str());
        out.append("\"\n");
        out.append("]\n");
    }
    assert(out@ =~= old(out)@ + exclude_entry(patterns));
}

impl InitAnswers {
    /// No question answered.
    pub fn new() -> (r: InitAnswers)
        ensures
            r@ == InitSessionView::start().answers,
    {
        let r = InitAnswers {
            server: String::new(),
            port: String::new(),
            target_dir: String::new(),
            user: String::new(),
            default: None,
            exclude: Vec::new(),
        };
        assert(texts(r.exclude@) =~= Seq::<Seq<char>>::empty());
        r
    }

    /// The configuration file that the answers make.
    pub fn render(&self) -> (r: String)
        ensures
            r@ == config_text(self@),
    {
        let mut out: String = String::new();
        append_optional(&mut out, "server", self.server.as_str());
        append_port(&mut out, self.port.as_str());
        append_optional(&mut out, "user", self.user.as_str());
        append_optional(&mut out, "target_dir", self.target_dir.as_str());
        append_default(&mut out, &self.default);
        append_patterns(&mut out, &self.exclude);
        assert(out@ =~= config_text(self@));
        out
    }
}

impl InitSession {
    /// The dialogue before the first question.
    pub fn start() -> (r: InitSession)
        ensures
            r@ == InitSessionView::start(),
    {
        InitSession { stage: InitStage::Server, answers: InitAnswers::new() }
    }

    /// Whether every question is answered.
    pub fn is_done(&self) -> (r: bool)
        ensures
            r == (self@.stage == InitStage::Done),
    {
        match self.stage {
            InitStage::Done => true,
            _ => false,
        }
    }

    /// The text to show before the next answer is read.
    pub fn prompt(&self) -> (r: String)
        ensures
            r@ == prompt_text(self@.stage),
    {
        let text: &str = match self.stage {
            InitStage::Server => "Server address: ",
            InitStage::Port => "port: ",
            InitStage::TargetDir => "Target directory on the server: ",
            InitStage::User => "User on the server: ",
            InitStage::DefaultCommand => "Use a command by default? (push/sync): ",
            InitStage::Exclude => "Exclude pattern? : ",
            InitStage::Done => "",
        };
        String::from_str(text)
    }

    /// Takes `line`, without its line end, as the answer to the current question.
    pub fn answer(&mut self, line: &str) -> (r: Reply)
        ensures
            final(self)@ == old(self)@.after(line@),
            r == old(self)@.reply_to(line@),
    {
        match self.stage {
            InitStage::Server => {
                self.answers.server = String::from_str(line);
                self.stage = InitStage::Port;
                Reply::Accepted
            },
            InitStage::Port => {
                self.answers.port = String::from_str(line);
                self.stage = InitStage::TargetDir;
                Reply::Accepted
            },
            InitStage::TargetDir => {
                self.answers.target_dir = String::from_str(line);
                self.stage = InitStage::User;
                Reply::Accepted
            },
            InitStage::User => {
                self.answers.user = String::from_str(line);
                self.stage = InitStage::DefaultCommand;
                Reply::Accepted
            },
            InitStage::DefaultCommand => {
                if line.is_empty() {
                    self.stage = InitStage::Exclude;
                    Reply::Accepted
                } else if same_text(line, "push") || same_text(line, "sync") {
                    self.answers.default = Some(String::from_str(line));
                    self.stage = InitStage::Exclude;
                    Reply::Accepted
                } else {
                    Reply::UnknownCommand
                }
            },
            InitStage::Exclude => {
                if line.is_empty() {
                    self.stage = InitStage::Done;
                } else {
                    let pattern: String = String::from_str(line);
                    proof {
                        lemma_texts_push(self.answers.exclude@, pattern);
                    }
                    self.answers.exclude.push(pattern);
                }
                Reply::Accepted
            },
            InitStage::Done => Reply::Accepted,
        }
    }
}

/// The message that tells of an answer that names no command.
pub fn unknown_command_notice() -> (r: String)
    ensures
        r@ == "Unknown command."@,
{
    String::from_str("Unknown command.")
}

/// The dialogue ends, and only so: the stage after an answer is `Done`
/// exactly when it was `Done` before or the answer was an empty line in the
/// stage of the exclusion patterns. An answer that is refused changes nothing.
pub proof fn lemma_dialogue_ends(s: InitSessionView, line: Seq<char>)
    ensures
        s.after(line).stage == InitStage::Done <==> (s.stage == InitStage::Done || (s.stage
            == InitStage::Exclude && line.len() == 0)),
        s.reply_to(line) == Reply::UnknownCommand ==> s.after(line) == s,
{
}

/// What was chosen as the default command is a command that a
/// configuration file may name: starting from a dialogue whose default, if
/// any, is `push` or `sync`, every answer keeps it so.
pub proof fn lemma_default_is_command(s: InitSessionView, line: Seq<char>)
    requires
        s.answers.default matches Some(d) ==> d == "push"@ || d == "sync"@,
    ensures
        s.after(line).answers.default matches Some(d) ==> d == "push"@ || d == "sync"@,
{
    reveal_strlit("push");
    reveal_strlit("sync");
}

} // verus!
