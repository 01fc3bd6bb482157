//! Settings read from configuration files: one per directory, one per user.

use vstd::prelude::*;
use crate::text::{opt_text, opt_texts};

verus! {

/// What looking for a file gave.
#[derive(Clone, Debug, PartialEq, Eq)]
pub enum Loaded<T> {
    /// There is no such file. This is no error: the layer sets nothing.
    Absent,
    /// The file exists and cannot be understood. This is fatal.
    Malformed,
    /// The file's content.
    Present(T),
}

impl<T: View> View for Loaded<T> {
    type V = Loaded<T::V>;

    open spec fn view(&self) -> Loaded<T::V> {
        match self {
            Loaded::Absent => Loaded::Absent,
            Loaded::Malformed => Loaded::Malformed,
            Loaded::Present(t) => Loaded::Present(t@),
        }
    }
}

/// Settings of one source directory. Every field is optional.
#[derive(Clone, Debug, PartialEq, Eq, Default)]
pub struct Config {
    pub server: Option<String>,
    pub port: Option<u32>,
    pub user: Option<String>,
    pub target_dir: Option<String>,
    /// The command to run when the command line names none: `push` or `sync`.
    pub default: Option<String>,
    pub update_permissions: Option<bool>,
    pub update_dir_times: Option<bool>,
    pub exclude: Option<Vec<String>>,
}

/// The mathematical content of a [`Config`].
pub struct ConfigView {
    pub server: Option<Seq<char>>,
    pub port: Option<u32>,
    pub user: Option<Seq<char>>,
    pub target_dir: Option<Seq<char>>,
    pub default: Option<Seq<char>>,
    pub update_permissions: Option<bool>,
    pub update_dir_times: Option<bool>,
    pub exclude: Option<Seq<Seq<char>>>,
}

impl View for Config {
    type V = ConfigView;

    open spec fn view(&self) -> ConfigView {
        ConfigView {
            server: opt_text(self.server),
            port: self.port,
            user: opt_text(self.user),
            target_dir: opt_text(self.target_dir),
            default: opt_text(self.default),
            update_permissions: self.update_permissions,
            update_dir_times: self.update_dir_times,
            exclude: opt_texts(self.exclude),
        }
    }
}

impl Config {
    /// Settings that set nothing.
    pub fn empty() -> (r: Config)
        ensures
            r@ == ConfigView::empty(),
    {
        Config {
            server: None,
            port: None,
            user: None,
            target_dir: None,
            default: None,
            update_permissions: None,
            update_dir_times: None,
            exclude: None,
        }
    }
}

impl ConfigView {
    /// The settings of a file that sets nothing.
    pub open spec fn empty() -> ConfigView {
        ConfigView {
            server: None,
            port: None,
            user: None,
            target_dir: None,
            default: None,
            update_permissions: None,
            update_dir_times: None,
            exclude: None,
        }
    }
}

/// Settings of the user, shared by all directories. Every field is optional.
/// They are the settings that a directory can have, and the list for `--all`.
#[derive(Clone, Debug, PartialEq, Eq, Default)]
pub struct GlobalConfig {
    pub server: Option<String>,
    pub port: Option<u32>,
    pub user: Option<String>,
    pub target_dir: Option<String>,
    /// The command to run when neither the command line nor the directory
    /// names one: `push` or `sync`.
    pub default: Option<String>,
    pub exclude: Option<Vec<String>>,
    pub update_permissions: Option<bool>,
    pub update_dir_times: Option<bool>,
    /// The directories to back up when `--all` is used.
    pub list: Option<Vec<String>>,
}

/// The mathematical content of a [`GlobalConfig`].
pub struct GlobalConfigView {
    pub server: Option<Seq<char>>,
    pub port: Option<u32>,
    pub user: Option<Seq<char>>,
    pub target_dir: Option<Seq<char>>,
    pub default: Option<Seq<char>>,
    pub exclude: Option<Seq<Seq<char>>>,
    pub update_permissions: Option<bool>,
    pub update_dir_times: Option<bool>,
    pub list: Option<Seq<Seq<char>>>,
}

impl View for GlobalConfig {
    type V = GlobalConfigView;

    open spec fn view(&self) -> GlobalConfigView {
        GlobalConfigView {
            server: opt_text(self.server),
            port: self.port,
            user: opt_text(self.user),
            target_dir: opt_text(self.target_dir),
            default: opt_text(self.default),
            exclude: opt_texts(self.exclude),
            update_permissions: self.update_permissions,
            update_dir_times: self.update_dir_times,
            list: opt_texts(self.list),
        }
    }
}

impl GlobalConfig {
    /// Settings that set nothing.
    pub fn empty() -> (r: GlobalConfig)
        ensures
            r@ == GlobalConfigView::empty(),
    {
        GlobalConfig {
            server: None,
            port: None,
            user: None,
            target_dir: None,
            default: None,
            exclude: None,
            update_permissions: None,
            update_dir_times: None,
            list: None,
        }
    }
}

impl GlobalConfigView {
    /// The settings of a file that sets nothing.
    pub open spec fn empty() -> GlobalConfigView {
        GlobalConfigView {
            server: None,
            port: None,
            user: None,
            target_dir: None,
            default: None,
            exclude: None,
            update_permissions: None,
            update_dir_times: None,
            list: None,
        }
    }
}

/// The settings that a directory's file contributes: its content, or nothing
/// where there is no file.
pub open spec fn local_layer(l: Loaded<ConfigView>) -> ConfigView {
    match l {
        Loaded::Present(c) => c,
        _ => ConfigView::empty(),
    }
}

/// The settings that the user's file contributes: its content, or nothing
/// where there is no file.
pub open spec fn global_layer(g: Loaded<GlobalConfigView>) -> GlobalConfigView {
    match g {
        Loaded::Present(c) => c,
        _ => GlobalConfigView::empty(),
    }
}

/// The name of a configuration file inside its directory.
pub open spec fn config_file_name() -> Seq<char> {
    "/.backup.toml"@
}

/// Where the configuration file of `dir` lies: `<dir>/.backup.toml`. With
/// the user's home directory for `dir`, this is the user's configuration file.
pub fn config_path(dir: &str) -> (r: String)
    ensures
        r@ == dir@ + config_file_name(),
{
    let mut path: String = String::from_str(dir);
    path.append("/.backup.toml");
    path
}

} // verus!
