use backup::cli::{Cli, Subcommand, Task, TransferOptions};
use backup::command::Cmd;
use backup::config::{config_path, Config, GlobalConfig, Loaded};
use backup::error::Error;
use backup::resolve::{check_cli, parse_command, resolve, source_dirs, Params, DEFAULT_PORT};

fn s(text: &str) -> String {
    text.to_string()
}

fn push(options: TransferOptions) -> Cli {
    Cli { verbose: false, debug: false, all: false, subcommand: Some(Subcommand::Push(options)) }
}

fn sync(options: TransferOptions) -> Cli {
    Cli { verbose: false, debug: false, all: false, subcommand: Some(Subcommand::Sync(options)) }
}

fn full_local() -> Config {
    Config {
        server: Some(s("local.example")),
        port: Some(2002),
        user: Some(s("lucy")),
        target_dir: Some(s("/srv/local")),
        default: Some(s("sync")),
        update_permissions: Some(true),
        update_dir_times: Some(false),
        exclude: Some(vec![s("l1"), s("l2")]),
    }
}

fn full_global() -> GlobalConfig {
    GlobalConfig {
        server: Some(s("global.example")),
        port: Some(3003),
        user: Some(s("greg")),
        target_dir: Some(s("/srv/global")),
        default: Some(s("push")),
        exclude: Some(vec![s("g1")]),
        update_permissions: Some(false),
        update_dir_times: Some(true),
        list: Some(vec![s("/one"), s("/two")]),
    }
}

fn full_options() -> TransferOptions {
    TransferOptions {
        src: Some(s("/data")),
        target: Some(s("/srv/cli")),
        user: Some(s("carl")),
        server: Some(s("cli.example")),
        port: Some(s("1001")),
    }
}

#[test]
fn defaults_apply_when_no_layer_speaks() {
    let cli = Cli::default();
    let p = resolve(&cli, ".", &Loaded::Absent, &Loaded::Absent).unwrap();
    assert_eq!(
        p,
        Params {
            cmd: None,
            ip: s(""),
            port: 22,
            user: s(""),
            src_dir: s("."),
            target_dir: s("~/backups/default/"),
            exclude: vec![],
            all: false,
            update_dir_times: false,
            update_permissions: false,
            verbose: false,
            dbg: false,
        }
    );
    assert_eq!(DEFAULT_PORT, 22);
}

#[test]
fn command_line_wins_over_every_file() {
    let cli = push(full_options());
    let p = resolve(&cli, "/data", &Loaded::Present(full_local()), &Loaded::Present(full_global()))
        .unwrap();
    assert_eq!(p.cmd, Some(Cmd::Push));
    assert_eq!(p.ip, "cli.example");
    assert_eq!(p.port, 1001);
    assert_eq!(p.user, "carl");
    assert_eq!(p.target_dir, "/srv/cli");
    assert_eq!(p.src_dir, "/data");
    assert_eq!(p.update_permissions, true);
    assert_eq!(p.update_dir_times, false);
}

#[test]
fn directory_settings_win_over_the_users() {
    let cli = push(TransferOptions::default());
    let p = resolve(&cli, ".", &Loaded::Present(full_local()), &Loaded::Present(full_global()))
        .unwrap();
    assert_eq!(p.ip, "local.example");
    assert_eq!(p.port, 2002);
    assert_eq!(p.user, "lucy");
    assert_eq!(p.target_dir, "/srv/local");
    assert_eq!(p.update_permissions, true);
    assert_eq!(p.update_dir_times, false);
}

#[test]
fn users_settings_win_over_defaults() {
    let cli = push(TransferOptions::default());
    let p = resolve(&cli, ".", &Loaded::Absent, &Loaded::Present(full_global())).unwrap();
    assert_eq!(p.ip, "global.example");
    assert_eq!(p.port, 3003);
    assert_eq!(p.user, "greg");
    assert_eq!(p.target_dir, "/srv/global");
    assert_eq!(p.update_permissions, false);
    assert_eq!(p.update_dir_times, true);
}

#[test]
fn users_target_wins_over_the_default_target() {
    let global = GlobalConfig { target_dir: Some(s("/g")), ..GlobalConfig::default() };
    let p = resolve(&Cli::default(), ".", &Loaded::Absent, &Loaded::Present(global.clone()))
        .unwrap();
    assert_eq!(p.target_dir, "/g");
    // the directory's target wins over the user's, and a typed one over both
    let local = Config { target_dir: Some(s("/l")), ..Config::default() };
    let p = resolve(
        &Cli::default(),
        ".",
        &Loaded::Present(local.clone()),
        &Loaded::Present(global.clone()),
    )
    .unwrap();
    assert_eq!(p.target_dir, "/l");
    let cli = push(TransferOptions { target: Some(s("/c")), ..TransferOptions::default() });
    let p = resolve(&cli, ".", &Loaded::Present(local), &Loaded::Present(global)).unwrap();
    assert_eq!(p.target_dir, "/c");
}

#[test]
fn users_default_command_is_the_last_to_be_asked() {
    let global = GlobalConfig { default: Some(s("sync")), ..GlobalConfig::default() };
    // nothing else names a command: the user's default is used
    let p = resolve(&Cli::default(), ".", &Loaded::Absent, &Loaded::Present(global.clone()))
        .unwrap();
    assert_eq!(p.cmd, Some(Cmd::Sync));
    // the directory's default wins over it
    let local = Config { default: Some(s("push")), ..Config::default() };
    let p =
        resolve(&Cli::default(), ".", &Loaded::Present(local), &Loaded::Present(global.clone()))
            .unwrap();
    assert_eq!(p.cmd, Some(Cmd::Push));
    // a directory's default that names no command counts as not given
    let local = Config { default: Some(s("fetch")), ..Config::default() };
    let p =
        resolve(&Cli::default(), ".", &Loaded::Present(local), &Loaded::Present(global.clone()))
            .unwrap();
    assert_eq!(p.cmd, Some(Cmd::Sync));
    // a typed subcommand wins over both
    let p = resolve(&push(TransferOptions::default()), ".", &Loaded::Absent, &Loaded::Present(global))
        .unwrap();
    assert_eq!(p.cmd, Some(Cmd::Push));
    // a user's default that names no command names none
    let global = GlobalConfig { default: Some(s("pull")), ..GlobalConfig::default() };
    let p = resolve(&Cli::default(), ".", &Loaded::Absent, &Loaded::Present(global)).unwrap();
    assert_eq!(p.cmd, None);
}

#[test]
fn each_setting_is_layered_on_its_own() {
    // server from the command line, port from the directory, user from the
    // user's file, target from the defaults: no setting follows another.
    let cli = push(TransferOptions { server: Some(s("cli.example")), ..TransferOptions::default() });
    let local = Config { port: Some(2002), ..Config::default() };
    let global = GlobalConfig {
        server: Some(s("global.example")),
        port: Some(3003),
        user: Some(s("greg")),
        ..GlobalConfig::default()
    };
    let p = resolve(&cli, ".", &Loaded::Present(local), &Loaded::Present(global)).unwrap();
    assert_eq!(p.ip, "cli.example");
    assert_eq!(p.port, 2002);
    assert_eq!(p.user, "greg");
    assert_eq!(p.target_dir, "~/backups/default/");
}

#[test]
fn all_sixteen_layer_combinations_of_the_port() {
    for cli_set in [false, true] {
        for local_set in [false, true] {
            for global_set in [false, true] {
                let cli = push(TransferOptions {
                    port: if cli_set { Some(s("1001")) } else { None },
                    ..TransferOptions::default()
                });
                let local = Config {
                    port: if local_set { Some(2002) } else { None },
                    ..Config::default()
                };
                let global = GlobalConfig {
                    port: if global_set { Some(3003) } else { None },
                    ..GlobalConfig::default()
                };
                let p =
                    resolve(&cli, ".", &Loaded::Present(local), &Loaded::Present(global)).unwrap();
                let expected = if cli_set {
                    1001
                } else if local_set {
                    2002
                } else if global_set {
                    3003
                } else {
                    22
                };
                assert_eq!(p.port, expected);
                // the other settings stay at their defaults whatever the port's layers are
                assert_eq!(p.ip, "");
                assert_eq!(p.user, "");
            }
        }
    }
}

#[test]
fn exclusions_of_both_files_are_concatenated() {
    let cli = push(TransferOptions::default());
    let local = Config { exclude: Some(vec![s("b")]), ..Config::default() };
    let global = GlobalConfig { exclude: Some(vec![s("a")]), ..GlobalConfig::default() };
    let p = resolve(&cli, ".", &Loaded::Present(local), &Loaded::Present(global)).unwrap();
    assert_eq!(p.exclude, vec![s("a"), s("b")]);
}

#[test]
fn exclusions_keep_order_and_duplicates() {
    let cli = push(TransferOptions::default());
    let local = Config { exclude: Some(vec![s("x"), s("a"), s("x")]), ..Config::default() };
    let global = GlobalConfig { exclude: Some(vec![s("a"), s("z")]), ..GlobalConfig::default() };
    let p = resolve(&cli, ".", &Loaded::Present(local), &Loaded::Present(global)).unwrap();
    assert_eq!(p.exclude, vec![s("a"), s("z"), s("x"), s("a"), s("x")]);
}

#[test]
fn all_with_source_is_rejected() {
    let cli = Cli {
        verbose: false,
        debug: false,
        all: true,
        subcommand: Some(Subcommand::Push(TransferOptions {
            src: Some(s("/data")),
            ..TransferOptions::default()
        })),
    };
    assert_eq!(check_cli(&cli), Err(Error::SourceWithAll));
    assert_eq!(source_dirs(&cli, &Loaded::Present(full_global())), Err(Error::SourceWithAll));
    assert_eq!(source_dirs(&cli, &Loaded::Malformed), Err(Error::SourceWithAll));
    assert_eq!(
        resolve(&cli, "/data", &Loaded::Malformed, &Loaded::Malformed),
        Err(Error::SourceWithAll)
    );
}

#[test]
fn all_without_source_is_accepted() {
    let cli = Cli {
        verbose: false,
        debug: false,
        all: true,
        subcommand: Some(Subcommand::Sync(TransferOptions::default())),
    };
    assert_eq!(check_cli(&cli), Ok(()));
    assert_eq!(
        source_dirs(&cli, &Loaded::Present(full_global())),
        Ok(vec![s("/one"), s("/two")])
    );
    assert_eq!(source_dirs(&cli, &Loaded::Absent), Ok(vec![]));
    assert_eq!(source_dirs(&cli, &Loaded::Present(GlobalConfig::default())), Ok(vec![]));
    let p = resolve(&cli, "/two", &Loaded::Absent, &Loaded::Present(full_global())).unwrap();
    assert_eq!(p.src_dir, "/two");
    assert!(p.all);
    assert_eq!(p.exclude, vec![s("g1")]);
}

#[test]
fn init_with_all_is_no_conflict() {
    let cli = Cli {
        verbose: false,
        debug: false,
        all: true,
        subcommand: Some(Subcommand::Init { src: Some(s("/data")) }),
    };
    assert_eq!(check_cli(&cli), Ok(()));
    assert_eq!(cli.init_dir(), "/data");
    assert_eq!(cli.task(), Task::Init);
}

#[test]
fn single_directory_is_the_one_typed_or_the_current_one() {
    let typed = push(TransferOptions { src: Some(s("/data")), ..TransferOptions::default() });
    assert_eq!(source_dirs(&typed, &Loaded::Present(full_global())), Ok(vec![s("/data")]));
    let bare = push(TransferOptions::default());
    assert_eq!(source_dirs(&bare, &Loaded::Absent), Ok(vec![s(".")]));
    let info = Cli { subcommand: Some(Subcommand::Info), ..Cli::default() };
    assert_eq!(source_dirs(&info, &Loaded::Absent), Ok(vec![s(".")]));
}

#[test]
fn scenario_push_with_empty_configs() {
    let cli = push(TransferOptions {
        src: Some(s("/data")),
        server: Some(s("host")),
        user: Some(s("bob")),
        ..TransferOptions::default()
    });
    let global = Loaded::Present(GlobalConfig::default());
    let dirs = source_dirs(&cli, &global).unwrap();
    assert_eq!(dirs, vec![s("/data")]);
    let p = resolve(&cli, &dirs[0], &Loaded::Present(Config::default()), &global).unwrap();
    assert_eq!(
        p,
        Params {
            cmd: Some(Cmd::Push),
            ip: s("host"),
            port: 22,
            user: s("bob"),
            src_dir: s("/data"),
            target_dir: s("~/backups/default/"),
            exclude: vec![],
            all: false,
            update_dir_times: false,
            update_permissions: false,
            verbose: false,
            dbg: false,
        }
    );
}

#[test]
fn subcommand_wins_over_the_default_command() {
    let local = Config { default: Some(s("sync")), ..Config::default() };
    let p = resolve(&push(TransferOptions::default()), ".", &Loaded::Present(local), &Loaded::Absent)
        .unwrap();
    assert_eq!(p.cmd, Some(Cmd::Push));
}

#[test]
fn default_command_is_used_without_a_subcommand() {
    let local = Config { default: Some(s("sync")), ..Config::default() };
    let p = resolve(&Cli::default(), ".", &Loaded::Present(local), &Loaded::Absent).unwrap();
    assert_eq!(p.cmd, Some(Cmd::Sync));
    let local = Config { default: Some(s("push")), ..Config::default() };
    let p = resolve(&Cli::default(), ".", &Loaded::Present(local), &Loaded::Absent).unwrap();
    assert_eq!(p.cmd, Some(Cmd::Push));
}

#[test]
fn unknown_default_command_names_none() {
    for text in ["fetch", "Push", "", "sync ", "pushsync"] {
        let local = Config { default: Some(s(text)), ..Config::default() };
        let p = resolve(&Cli::default(), ".", &Loaded::Present(local), &Loaded::Absent).unwrap();
        assert_eq!(p.cmd, None);
        assert_eq!(parse_command(text), None);
    }
    assert_eq!(parse_command("push"), Some(Cmd::Push));
    assert_eq!(parse_command("sync"), Some(Cmd::Sync));
}

#[test]
fn malformed_files_are_fatal_and_absent_ones_are_not() {
    let cli = sync(TransferOptions::default());
    assert_eq!(
        resolve(&cli, ".", &Loaded::Malformed, &Loaded::Absent),
        Err(Error::MalformedConfig)
    );
    assert_eq!(
        resolve(&cli, ".", &Loaded::Absent, &Loaded::Malformed),
        Err(Error::MalformedConfig)
    );
    assert_eq!(source_dirs(&cli, &Loaded::Malformed), Err(Error::MalformedConfig));
    assert!(resolve(&cli, ".", &Loaded::Absent, &Loaded::Absent).is_ok());
}

#[test]
fn typed_port_must_be_a_number() {
    for text in ["", "+", "ssh", "22a", " 22", "-1", "2 2", "4294967296", "99999999999999999999"] {
        let cli = push(TransferOptions { port: Some(s(text)), ..TransferOptions::default() });
        assert_eq!(
            resolve(&cli, ".", &Loaded::Absent, &Loaded::Absent),
            Err(Error::InvalidPort),
            "{:?}",
            text
        );
    }
    for (text, port) in [("22", 22), ("+2222", 2222), ("0022", 22), ("4294967295", u32::MAX), ("0", 0)]
    {
        let cli = push(TransferOptions { port: Some(s(text)), ..TransferOptions::default() });
        let p = resolve(&cli, ".", &Loaded::Absent, &Loaded::Absent).unwrap();
        assert_eq!(p.port, port);
    }
}

#[test]
fn debug_implies_verbose() {
    let cli = Cli { debug: true, ..push(TransferOptions::default()) };
    let p = resolve(&cli, ".", &Loaded::Absent, &Loaded::Absent).unwrap();
    assert!(p.dbg);
    assert!(p.verbose);
    let cli = Cli { verbose: true, ..push(TransferOptions::default()) };
    let p = resolve(&cli, ".", &Loaded::Absent, &Loaded::Absent).unwrap();
    assert!(!p.dbg);
    assert!(p.verbose);
}

#[test]
fn tasks_follow_the_subcommand() {
    assert_eq!(Cli::default().task(), Task::Transfer);
    assert_eq!(push(TransferOptions::default()).task(), Task::Transfer);
    assert_eq!(sync(TransferOptions::default()).task(), Task::Transfer);
    let info = Cli { subcommand: Some(Subcommand::Info), ..Cli::default() };
    assert_eq!(info.task(), Task::Info);
    let when = Cli { subcommand: Some(Subcommand::When { write: true }), ..Cli::default() };
    assert_eq!(when.task(), Task::When { write: true });
    let init = Cli { subcommand: Some(Subcommand::Init { src: None }), ..Cli::default() };
    assert_eq!(init.task(), Task::Init);
    assert_eq!(init.init_dir(), ".");
    assert_eq!(Cli::default().command(), None);
    let fetch = Cli {
        subcommand: Some(Subcommand::Fetch(TransferOptions::default())),
        ..Cli::default()
    };
    assert_eq!(fetch.command(), Some(Cmd::Fetch));
}

#[test]
fn config_files_lie_in_their_directory() {
    assert_eq!(config_path("/data"), "/data/.backup.toml");
    assert_eq!(config_path("."), "./.backup.toml");
    assert_eq!(config_path("/home/bob"), "/home/bob/.backup.toml");
}
