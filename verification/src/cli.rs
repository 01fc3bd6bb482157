//! The command line, as plain values.

use vstd::prelude::*;
use crate::command::Cmd;
use crate::text::opt_text;

verus! {

/// The options of the `push`, `sync` and `fetch` subcommands, each as typed
/// by the operator, or `None` where it was not given.
#[derive(Clone, Debug, PartialEq, Eq, Default)]
pub struct TransferOptions {
    /// The source directory (positional).
    pub src: Option<String>,
    /// The directory on the server (`-o`).
    pub target: Option<String>,
    /// The user on the server (`-u`).
    pub user: Option<String>,
    /// The server address (`-s`).
    pub server: Option<String>,
    /// The port, still as text (`-p`).
    pub port: Option<String>,
}

/// The mathematical content of [`TransferOptions`].
pub struct TransferOptionsView {
    pub src: Option<Seq<char>>,
    pub target: Option<Seq<char>>,
    pub user: Option<Seq<char>>,
    pub server: Option<Seq<char>>,
    pub port: Option<Seq<char>>,
}

impl View for TransferOptions {
    type V = TransferOptionsView;

    open spec fn view(&self) -> TransferOptionsView {
        TransferOptionsView {
            src: opt_text(self.src),
            target: opt_text(self.target),
            user: opt_text(self.user),
            server: opt_text(self.server),
            port: opt_text(self.port),
        }
    }
}

impl TransferOptionsView {
    /// No option given.
    pub open spec fn empty() -> TransferOptionsView {
        TransferOptionsView { src: None, target: None, user: None, server: None, port: None }
    }
}

impl TransferOptions {
    /// No option given.
    pub fn empty() -> (r: TransferOptions)
        ensures
            r@ == TransferOptionsView::empty(),
    {
        TransferOptions { src: None, target: None, user: None, server: None, port: None }
    }
}

/// The subcommand that was typed.
#[derive(Clone, Debug, PartialEq, Eq)]
pub enum Subcommand {
    Push(TransferOptions),
    Sync(TransferOptions),
    Fetch(TransferOptions),
    /// Set up a configuration file in `src`.
    Init { src: Option<String> },
    /// Show the time of the last backup, or with `write` record the current time.
    When { write: bool },
    /// Show the directory and the time of its last backup.
    Info,
}

/// The mathematical content of a [`Subcommand`].
pub enum SubcommandView {
    Push(TransferOptionsView),
    Sync(TransferOptionsView),
    Fetch(TransferOptionsView),
    Init { src: Option<Seq<char>> },
    When { write: bool },
    Info,
}

impl View for Subcommand {
    type V = SubcommandView;

    open spec fn view(&self) -> SubcommandView {
        match self {
            Subcommand::Push(o) => SubcommandView::Push(o@),
            Subcommand::Sync(o) => SubcommandView::Sync(o@),
            Subcommand::Fetch(o) => SubcommandView::Fetch(o@),
            Subcommand::Init { src } => SubcommandView::Init { src: opt_text(*src) },
            Subcommand::When { write } => SubcommandView::When { write: *write },
            Subcommand::Info => SubcommandView::Info,
        }
    }
}

/// What the tool is asked to do with each directory.
#[derive(Clone, Copy, Debug, PartialEq, Eq, Structural)]
pub enum Task {
    /// Ask for the settings of a directory and write its configuration file.
    Init,
    /// Print the directory and, where known, the time of its last backup.
    Info,
    /// Print the time of the last backup, or with `write` record the current time.
    When { write: bool },
    /// Resolve the settings and run the transfer.
    Transfer,
}

/// A parsed command line.
#[derive(Clone, Debug, PartialEq, Eq, Default)]
pub struct Cli {
    /// `--verbose`
    pub verbose: bool,
    /// `--debug`: print the commands but do not run them.
    pub debug: bool,
    /// `--all`: work on every directory of the user's list.
    pub all: bool,
    /// The subcommand, if one was typed.
    pub subcommand: Option<Subcommand>,
}

/// The mathematical content of a [`Cli`].
pub struct CliView {
    pub verbose: bool,
    pub debug: bool,
    pub all: bool,
    pub subcommand: Option<SubcommandView>,
}

impl View for Cli {
    type V = CliView;

    open spec fn view(&self) -> CliView {
        CliView {
            verbose: self.verbose,
            debug: self.debug,
            all: self.all,
            subcommand: match self.subcommand {
                Some(s) => Some(s@),
                None => None,
            },
        }
    }
}

impl CliView {
    /// The options of the transfer subcommand; none given where the
    /// subcommand is another one or missing.
    pub open spec fn options(self) -> TransferOptionsView {
        match self.subcommand {
            Some(SubcommandView::Push(o)) => o,
            Some(SubcommandView::Sync(o)) => o,
            Some(SubcommandView::Fetch(o)) => o,
            _ => TransferOptionsView::empty(),
        }
    }

    /// The transfer that the subcommand names, if it names one.
    pub open spec fn command(self) -> Option<Cmd> {
        match self.subcommand {
            Some(SubcommandView::Push(_)) => Some(Cmd::Push),
            Some(SubcommandView::Sync(_)) => Some(Cmd::Sync),
            Some(SubcommandView::Fetch(_)) => Some(Cmd::Fetch),
            _ => None,
        }
    }

    /// What is to be done with each directory. Without a subcommand this is
    /// a transfer, whose command then has to come from the directory's settings.
    pub open spec fn task(self) -> Task {
        match self.subcommand {
            Some(SubcommandView::Init { .. }) => Task::Init,
            Some(SubcommandView::Info) => Task::Info,
            Some(SubcommandView::When { write }) => Task::When { write },
            _ => Task::Transfer,
        }
    }

    /// Whether `--all` stands beside an explicit source directory. The two
    /// are rival answers to the question which directory is meant.
    pub open spec fn conflicting(self) -> bool {
        self.all && self.options().src is Some
    }

    /// The directory that `init` works in: the one typed, else the current one.
    pub open spec fn init_dir(self) -> Seq<char> {
        match self.subcommand {
            Some(SubcommandView::Init { src: Some(d) }) => d,
            _ => "."@,
        }
    }
}

impl Cli {
    /// The transfer that the subcommand names, if it names one.
    pub fn command(&self) -> (r: Option<Cmd>)
        ensures
            r == self@.command(),
    {
        match &self.subcommand {
            Some(Subcommand::Push(_)) => Some(Cmd::Push),
            Some(Subcommand::Sync(_)) => Some(Cmd::Sync),
            Some(Subcommand::Fetch(_)) => Some(Cmd::Fetch),
            _ => None,
        }
    }

    /// What is to be done with each directory.
    pub fn task(&self) -> (r: Task)
        ensures
            r == self@.task(),
    {
        match &self.subcommand {
            Some(Subcommand::Init { .. }) => Task::Init,
            Some(Subcommand::Info) => Task::Info,
            Some(Subcommand::When { write }) => Task::When { write: *write },
            _ => Task::Transfer,
        }
    }

    /// Whether the operator typed a source directory for a transfer.
    pub fn has_source(&self) -> (r: bool)
        ensures
            r == (self@.options().src is Some),
    {
        match &self.subcommand {
            Some(Subcommand::Push(o)) => o.src.is_some(),
            Some(Subcommand::Sync(o)) => o.src.is_some(),
            Some(Subcommand::Fetch(o)) => o.src.is_some(),
            _ => false,
        }
    }

    /// The directory that `init` works in: the one typed, else the current one.
    pub fn init_dir(&self) -> (r: String)
        ensures
            r@ == self@.init_dir(),
    {
        match &self.subcommand {
            Some(Subcommand::Init { src: Some(d) }) => d.clone(),
            _ => String::from_str("."),
        }
    }
}

} // verus!
