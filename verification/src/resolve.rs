//! Merging the command line, the directory's settings, the user's settings
//! and the built-in defaults into the settings of one backup operation.
//!
//! Each setting is taken from the first layer that gives it, in this order:
//! command line, directory, user, default. Exclusion patterns are the one
//! exception: they add up, the user's first and the directory's after them.

use vstd::prelude::*;
use crate::cli::{Cli, CliView, Subcommand, TransferOptions};
use crate::command::Cmd;
use crate::config::{Config, ConfigView, GlobalConfig, GlobalConfigView, Loaded};
use crate::config::{global_layer, local_layer};
use crate::error::Error;
use crate::text::{extend_list, number_of_text, parse_number, same_text, texts};

verus! {

/// The port used where no layer names one.
pub const DEFAULT_PORT: u32 = 22;

/// The directory on the server used where no layer names one.
pub open spec fn default_target() -> Seq<char> {
    "~/backups/default/"@
}

/// The source directory used where the command line names none.
pub open spec fn default_source() -> Seq<char> {
    "."@
}

/// The fully resolved settings of one backup operation.
#[derive(Clone, Debug, PartialEq, Eq)]
pub struct Params {
    /// The transfer to run, if any layer named one.
    pub cmd: Option<Cmd>,
    /// The server address; empty where no layer gave one.
    pub ip: String,
    pub port: u32,
    /// The user on the server; empty where no layer gave one.
    pub user: String,
    pub src_dir: String,
    pub target_dir: String,
    /// Exclusion patterns, in order, duplicates kept.
    pub exclude: Vec<String>,
    /// Whether the operation is one of a batch over the user's list.
    pub all: bool,
    /// Whether the times of directories are carried over.
    pub update_dir_times: bool,
    /// Whether permissions are carried over.
    pub update_permissions: bool,
    pub verbose: bool,
    /// Dry run: print, but neither transfer nor record anything.
    pub dbg: bool,
}

/// The mathematical content of [`Params`].
pub struct ParamsView {
    pub cmd: Option<Cmd>,
    pub ip: Seq<char>,
    pub port: u32,
    pub user: Seq<char>,
    pub src_dir: Seq<char>,
    pub target_dir: Seq<char>,
    pub exclude: Seq<Seq<char>>,
    pub all: bool,
    pub update_dir_times: bool,
    pub update_permissions: bool,
    pub verbose: bool,
    pub dbg: bool,
}

impl View for Params {
    type V = ParamsView;

    open spec fn view(&self) -> ParamsView {
        ParamsView {
            cmd: self.cmd,
            ip: self.ip@,
            port: self.port,
            user: self.user@,
            src_dir: self.src_dir@,
            target_dir: self.target_dir@,
            exclude: texts(self.exclude@),
            all: self.all,
            update_dir_times: self.update_dir_times,
            update_permissions: self.update_permissions,
            verbose: self.verbose,
            dbg: self.dbg,
        }
    }
}

/// The value of the first layer that gives one, else the default.
pub open spec fn first_of<T>(cli: Option<T>, local: Option<T>, global: Option<T>, default: T) -> T {
    match cli {
        Some(v) => v,
        None => match local {
            Some(v) => v,
            None => match global {
                Some(v) => v,
                None => default,
            },
        },
    }
}

/// The command that a directory's `default` setting names: `push` or `sync`.
/// Any other text names none.
pub open spec fn command_of_text(s: Seq<char>) -> Option<Cmd> {
    if s == "push"@ {
        Some(Cmd::Push)
    } else if s == "sync"@ {
        Some(Cmd::Sync)
    } else {
        None
    }
}

/// The command to run: the one typed as the subcommand, else the one that
/// the directory's settings name, else the one that the user's name, else none.
pub open spec fn first_command(cli: Option<Cmd>, local: Option<Cmd>, global: Option<Cmd>) -> Option<
    Cmd,
> {
    match cli {
        Some(c) => Some(c),
        None => match local {
            Some(c) => Some(c),
            None => global,
        },
    }
}

/// The command that a directory's settings name, if they name one.
///
/// The `default` key is layered like every other setting: the directory's
/// before the user's, and both only where no subcommand was typed. A text
/// that is neither `push` nor `sync` names no command and counts as if the
/// key were not there, so the next layer is asked.
pub open spec fn local_command(l: ConfigView) -> Option<Cmd> {
    match l.default {
        Some(t) => command_of_text(t),
        None => None,
    }
}

/// The command that the user's settings name, if they name one. It is used
/// where neither a subcommand nor the directory's settings name one.
pub open spec fn global_command(g: GlobalConfigView) -> Option<Cmd> {
    match g.default {
        Some(t) => command_of_text(t),
        None => None,
    }
}

/// The patterns of an optional list: none where there is no list.
pub open spec fn patterns(list: Option<Seq<Seq<char>>>) -> Seq<Seq<char>> {
    match list {
        Some(l) => l,
        None => Seq::empty(),
    }
}

/// The port typed on the command line, if one was typed and it is a number.
pub open spec fn typed_port(text: Option<Seq<char>>) -> Option<u32> {
    match text {
        Some(t) => number_of_text(t),
        None => None,
    }
}

/// Whether a port was typed that is no decimal number of 32 bits.
pub open spec fn bad_port(text: Option<Seq<char>>) -> bool {
    text is Some && typed_port(text) is None
}

/// The settings of a backup of `dir`, given the command line, what the
/// directory's configuration file gave and what the user's gave.
///
/// Refused, in this order: `--all` beside an explicit source directory; a
/// configuration file that cannot be understood; a typed port that is no number.
/// A port of zero passes here, as an empty server or user does: settings are
/// checked for a transfer when the transfer is planned.
pub open spec fn resolution(
    cli: CliView,
    dir: Seq<char>,
    local: Loaded<ConfigView>,
    global: Loaded<GlobalConfigView>,
) -> Result<ParamsView, Error> {
    let o = cli.options();
    let l = local_layer(local);
    let g = global_layer(global);
    if cli.conflicting() {
        Err(Error::SourceWithAll)
    } else if global is Malformed || local is Malformed {
        Err(Error::MalformedConfig)
    } else if bad_port(o.port) {
        Err(Error::InvalidPort)
    } else {
        Ok(
            ParamsView {
                cmd: first_command(cli.command(), local_command(l), global_command(g)),
                ip: first_of(o.server, l.server, g.server, Seq::empty()),
                port: first_of(typed_port(o.port), l.port, g.port, DEFAULT_PORT),
                user: first_of(o.user, l.user, g.user, Seq::empty()),
                src_dir: dir,
                target_dir: first_of(o.target, l.target_dir, g.target_dir, default_target()),
                exclude: patterns(g.exclude) + patterns(l.exclude),
                all: cli.all,
                update_dir_times: first_of(None, l.update_dir_times, g.update_dir_times, false),
                update_permissions: first_of(
                    None,
                    l.update_permissions,
                    g.update_permissions,
                    false,
                ),
                verbose: cli.verbose || cli.debug,
                dbg: cli.debug,
            },
        )
    }
}

/// The directories that a run works on, in order: with `--all` the user's
/// list (none where the user has no list), else the one source directory,
/// which is the one typed or the current directory.
///
/// Refused, in this order: `--all` beside an explicit source directory; a
/// user's configuration file that cannot be understood.
pub open spec fn directories(cli: CliView, global: Loaded<GlobalConfigView>) -> Result<
    Seq<Seq<char>>,
    Error,
> {
    if cli.conflicting() {
        Err(Error::SourceWithAll)
    } else if global is Malformed {
        Err(Error::MalformedConfig)
    } else if cli.all {
        Ok(patterns(global_layer(global).list))
    } else {
        Ok(seq![first_of(cli.options().src, None, None, default_source())])
    }
}

/// The mathematical content of the outcome of a resolution.
pub open spec fn outcome_view(r: Result<Params, Error>) -> Result<ParamsView, Error> {
    match r {
        Ok(p) => Ok(p@),
        Err(e) => Err(e),
    }
}

/// The mathematical content of a list of directories, or the refusal.
pub open spec fn list_view(r: Result<Vec<String>, Error>) -> Result<Seq<Seq<char>>, Error> {
    match r {
        Ok(l) => Ok(texts(l@)),
        Err(e) => Err(e),
    }
}

/// Refuses a command line that names its directory twice: by `--all` and by
/// an explicit source directory. This looks at the command line alone, so it
/// can and should run before any file is opened.
pub fn check_cli(cli: &Cli) -> (r: Result<(), Error>)
    ensures
        r == (if cli@.conflicting() {
            Err::<(), Error>(Error::SourceWithAll)
        } else {
            Ok(())
        }),
{
    if cli.all && cli.has_source() {
        Err(Error::SourceWithAll)
    } else {
        Ok(())
    }
}

/// The command that a directory's `default` setting names.
pub fn parse_command(text: &str) -> (r: Option<Cmd>)
    ensures
        r == command_of_text(text@),
{
    if same_text(text, "push") {
        Some(Cmd::Push)
    } else if same_text(text, "sync") {
        Some(Cmd::Sync)
    } else {
        None
    }
}

/// A copy of the text of the first layer that gives one, else of the default.
fn first_text(
    cli: &Option<String>,
    local: &Option<String>,
    global: &Option<String>,
    default: &str,
) -> (r: String)
    ensures
        r@ == first_of(
            crate::text::opt_text(*cli),
            crate::text::opt_text(*local),
            crate::text::opt_text(*global),
            default@,
        ),
{
    match cli {
        Some(v) => v.clone(),
        None => match local {
            Some(v) => v.clone(),
            None => match global {
                Some(v) => v.clone(),
                None => String::from_str(default),
            },
        },
    }
}

/// The value of the first layer that gives one, else the default.
fn first_value<T: Copy>(cli: Option<T>, local: Option<T>, global: Option<T>, default: T) -> (r: T)
    ensures
        r == first_of(cli, local, global, default),
{
    match cli {
        Some(v) => v,
        None => match local {
            Some(v) => v,
            None => match global {
                Some(v) => v,
                None => default,
            },
        },
    }
}

/// The options of the transfer subcommand, if that is the subcommand.
fn typed_options(cli: &Cli) -> (r: Option<&TransferOptions>)
    ensures
        match r {
            Some(o) => o@ == cli@.options() && cli@.command() is Some,
            None => cli@.options() == crate::cli::TransferOptionsView::empty()
                && cli@.command() is None,
        },
{
    match &cli.subcommand {
        Some(Subcommand::Push(o)) => Some(o),
        Some(Subcommand::Sync(o)) => Some(o),
        Some(Subcommand::Fetch(o)) => Some(o),
        _ => None,
    }
}

/// Resolves the settings of a backup of `dir`.
///
/// `local` is what looking for the configuration file of `dir` gave, `global`
/// what looking for the user's gave. Nothing is read or written here.
pub fn resolve(cli: &Cli, dir: &str, local: &Loaded<Config>, global: &Loaded<GlobalConfig>) -> (r:
    Result<Params, Error>)
    ensures
        outcome_view(r) == resolution(cli@, dir@, local@, global@),
{
    if cli.all && cli.has_source() {
        return Err(Error::SourceWithAll);
    }
    let no_options: TransferOptions = TransferOptions::empty();
    let o: &TransferOptions = match typed_options(cli) {
        Some(o) => o,
        None => &no_options,
    };
    let no_local: Config = Config::empty();
    let l: &Config = match local {
        Loaded::Present(c) => c,
        Loaded::Malformed => {
            return Err(Error::MalformedConfig);
        },
        Loaded::Absent => &no_local,
    };
    let no_global: GlobalConfig = GlobalConfig::empty();
    let g: &GlobalConfig = match global {
        Loaded::Present(c) => c,
        Loaded::Malformed => {
            return Err(Error::MalformedConfig);
        },
        Loaded::Absent => &no_global,
    };
    let port_typed: Option<u32> = match &o.port {
        Some(t) => {
            let n: Option<u32> = parse_number(t.as_str());
            if n.is_none() {
                return Err(Error::InvalidPort);
            }
            n
        },
        None => None,
    };
    let from_local: Option<Cmd> = match &l.default {
        Some(t) => parse_command(t.as_str()),
        None => None,
    };
    let from_global: Option<Cmd> = match &g.default {
        Some(t) => parse_command(t.as_str()),
        None => None,
    };
    let mut exclude: Vec<String> = Vec::new();
    if let Some(e) = &g.exclude {
        extend_list(&mut exclude, e);
    }
    if let Some(e) = &l.exclude {
        extend_list(&mut exclude, e);
    }
    let p = Params {
        cmd: match cli.command() {
            Some(c) => Some(c),
            None => match from_local {
                Some(c) => Some(c),
                None => from_global,
            },
        },
        ip: first_text(&o.server, &l.server, &g.server, ""),
        port: first_value(port_typed, l.port, g.port, DEFAULT_PORT),
        user: first_text(&o.user, &l.user, &g.user, ""),
        src_dir: String::from_str(dir),
        target_dir: first_text(&o.target, &l.target_dir, &g.target_dir, "~/backups/default/"),
        exclude,
        all: cli.all,
        update_dir_times: first_value(None, l.update_dir_times, g.update_dir_times, false),
        update_permissions: first_value(None, l.update_permissions, g.update_permissions, false),
        verbose: cli.verbose || cli.debug,
        dbg: cli.debug,
    };
    proof {
        reveal_strlit("");
        assert(""@ =~= Seq::<char>::empty());
        assert(p@.exclude =~= patterns(g@.exclude) + patterns(l@.exclude));
    }
    Ok(p)
}

/// The directories that a run works on, in order.
pub fn source_dirs(cli: &Cli, global: &Loaded<GlobalConfig>) -> (r: Result<Vec<String>, Error>)
    ensures
        list_view(r) == directories(cli@, global@),
{
    if cli.all && cli.has_source() {
        return Err(Error::SourceWithAll);
    }
    let mut dirs: Vec<String> = Vec::new();
    assert(texts(dirs@) =~= Seq::<Seq<char>>::empty());
    match global {
        Loaded::Malformed => {
            return Err(Error::MalformedConfig);
        },
        Loaded::Present(g) => {
            if cli.all {
                if let Some(list) = &g.list {
                    extend_list(&mut dirs, list);
                }
                assert(texts(dirs@) =~= patterns(g@.list));
                return Ok(dirs);
            }
        },
        Loaded::Absent => {
            if cli.all {
                return Ok(dirs);
            }
        },
    }
    let no_text: Option<String> = None;
    let src: String = match typed_options(cli) {
        Some(o) => first_text(&o.src, &no_text, &no_text, "."),
        None => String::from_str("."),
    };
    dirs.push(src);
    assert(texts(dirs@) =~= seq![first_of(cli@.options().src, None, None, default_source())]);
    Ok(dirs)
}

/// Whether `r` is what the layers select: the command line's value where it
/// gives one; else the directory's; else the user's; else the default.
pub open spec fn selects<T>(r: T, cli: Option<T>, local: Option<T>, global: Option<T>, default: T) -> bool {
    &&& cli is Some ==> r == cli->Some_0
    &&& cli is None && local is Some ==> r == local->Some_0
    &&& cli is None && local is None && global is Some ==> r == global->Some_0
    &&& cli is None && local is None && global is None ==> r == default
}

/// Precedence: whenever the settings resolve, each of them is the value of
/// the highest layer that gives it (command line, then directory, then user,
/// then default), and which layer wins is decided for each setting by that
/// setting's own layers alone.
pub proof fn lemma_precedence(
    cli: CliView,
    dir: Seq<char>,
    local: Loaded<ConfigView>,
    global: Loaded<GlobalConfigView>,
)
    requires
        resolution(cli, dir, local, global) is Ok,
    ensures
        ({
            let p = resolution(cli, dir, local, global)->Ok_0;
            let o = cli.options();
            let l = local_layer(local);
            let g = global_layer(global);
            &&& selects(p.ip, o.server, l.server, g.server, Seq::empty())
            &&& selects(p.port, typed_port(o.port), l.port, g.port, DEFAULT_PORT)
            &&& selects(p.user, o.user, l.user, g.user, Seq::empty())
            &&& selects(p.target_dir, o.target, l.target_dir, g.target_dir, default_target())
            &&& cli.command() is Some ==> p.cmd == cli.command()
            &&& cli.command() is None && local_command(l) is Some ==> p.cmd == local_command(l)
            &&& cli.command() is None && local_command(l) is None ==> p.cmd == global_command(g)
            &&& selects(p.update_dir_times, None, l.update_dir_times, g.update_dir_times, false)
            &&& selects(
                p.update_permissions,
                None,
                l.update_permissions,
                g.update_permissions,
                false,
            )
        }),
{
}

/// Independence: two resolutions whose layers agree on one setting agree on
/// that setting's result, however much they differ in every other setting.
pub proof fn lemma_settings_independent(
    cli1: CliView,
    dir1: Seq<char>,
    local1: Loaded<ConfigView>,
    global1: Loaded<GlobalConfigView>,
    cli2: CliView,
    dir2: Seq<char>,
    local2: Loaded<ConfigView>,
    global2: Loaded<GlobalConfigView>,
)
    requires
        resolution(cli1, dir1, local1, global1) is Ok,
        resolution(cli2, dir2, local2, global2) is Ok,
    ensures
        ({
            let first = resolution(cli1, dir1, local1, global1)->Ok_0;
            let second = resolution(cli2, dir2, local2, global2)->Ok_0;
            let o1 = cli1.options();
            let o2 = cli2.options();
            let l1 = local_layer(local1);
            let l2 = local_layer(local2);
            let g1 = global_layer(global1);
            let g2 = global_layer(global2);
            &&& o1.server == o2.server && l1.server == l2.server && g1.server == g2.server
                ==> first.ip == second.ip
            &&& o1.port == o2.port && l1.port == l2.port && g1.port == g2.port ==> first.port
                == second.port
            &&& o1.user == o2.user && l1.user == l2.user && g1.user == g2.user ==> first.user
                == second.user
            &&& o1.target == o2.target && l1.target_dir == l2.target_dir && g1.target_dir
                == g2.target_dir ==> first.target_dir == second.target_dir
            &&& cli1.command() == cli2.command() && l1.default == l2.default && g1.default
                == g2.default ==> first.cmd == second.cmd
            &&& l1.update_dir_times == l2.update_dir_times && g1.update_dir_times
                == g2.update_dir_times ==> first.update_dir_times == second.update_dir_times
            &&& l1.update_permissions == l2.update_permissions && g1.update_permissions
                == g2.update_permissions ==> first.update_permissions == second.update_permissions
            &&& g1.exclude == g2.exclude && l1.exclude == l2.exclude ==> first.exclude == second.exclude
            &&& dir1 == dir2 ==> first.src_dir == second.src_dir
        }),
{
}

/// Exclusion patterns add up: the resolved list is the user's patterns
/// followed by the directory's, each in its own order, nothing dropped and
/// nothing merged.
pub proof fn lemma_exclusions_accumulate(
    cli: CliView,
    dir: Seq<char>,
    local: Loaded<ConfigView>,
    global: Loaded<GlobalConfigView>,
)
    requires
        resolution(cli, dir, local, global) is Ok,
    ensures
        ({
            let p = resolution(cli, dir, local, global)->Ok_0;
            let g = patterns(global_layer(global).exclude);
            let l = patterns(local_layer(local).exclude);
            &&& p.exclude == g + l
            &&& p.exclude.len() == g.len() + l.len()
            &&& forall|i: int| 0 <= i < g.len() ==> p.exclude[i] == g[i]
            &&& forall|i: int| 0 <= i < l.len() ==> p.exclude[g.len() + i] == l[i]
        }),
{
}

/// `--all` beside an explicit source directory is refused whatever any file
/// holds: by the check of the command line alone, by the choice of
/// directories and by the resolution. So no directory is ever worked on.
pub proof fn lemma_all_excludes_source(
    cli: CliView,
    dir: Seq<char>,
    local: Loaded<ConfigView>,
    global: Loaded<GlobalConfigView>,
)
    requires
        cli.all,
        cli.options().src is Some,
    ensures
        cli.conflicting(),
        directories(cli, global) == Err::<Seq<Seq<char>>, Error>(Error::SourceWithAll),
        resolution(cli, dir, local, global) == Err::<ParamsView, Error>(Error::SourceWithAll),
{
}

/// Preserving permissions and directory times is off unless a configuration
/// file turns it on: with neither the directory's nor the user's settings
/// naming them, both resolve to `false`.
pub proof fn lemma_preserve_defaults(
    cli: CliView,
    dir: Seq<char>,
    local: Loaded<ConfigView>,
    global: Loaded<GlobalConfigView>,
)
    requires
        resolution(cli, dir, local, global) is Ok,
    ensures
        ({
            let p = resolution(cli, dir, local, global)->Ok_0;
            let l = local_layer(local);
            let g = global_layer(global);
            &&& l.update_permissions is None && g.update_permissions is None
                ==> !p.update_permissions
            &&& l.update_dir_times is None && g.update_dir_times is None ==> !p.update_dir_times
        }),
{
}

} // verus!
