use backup::init::{unknown_command_notice, InitAnswers, InitSession, InitStage, Reply};

fn l(text: &str) -> String {
    text.to_string()
}

fn run(lines: &[&str]) -> InitSession {
    let mut session = InitSession::start();
    for line in lines {
        session.answer(line);
    }
    session
}

#[test]
fn questions_come_in_order() {
    let mut session = InitSession::start();
    assert_eq!(session.stage, InitStage::Server);
    assert_eq!(session.prompt(), "Server address: ");
    assert_eq!(session.answer("host"), Reply::Accepted);
    assert_eq!(session.prompt(), "port: ");
    assert_eq!(session.answer("2222"), Reply::Accepted);
    assert_eq!(session.prompt(), "Target directory on the server: ");
    assert_eq!(session.answer("/srv"), Reply::Accepted);
    assert_eq!(session.prompt(), "User on the server: ");
    assert_eq!(session.answer("bob"), Reply::Accepted);
    assert_eq!(session.prompt(), "Use a command by default? (push/sync): ");
    assert_eq!(session.answer("sync"), Reply::Accepted);
    assert_eq!(session.prompt(), "Exclude pattern? : ");
    assert_eq!(session.answer("*.o"), Reply::Accepted);
    assert_eq!(session.prompt(), "Exclude pattern? : ");
    assert_eq!(session.answer("target"), Reply::Accepted);
    assert!(!session.is_done());
    assert_eq!(session.answer(""), Reply::Accepted);
    assert!(session.is_done());
    assert_eq!(session.prompt(), "");
    assert_eq!(
        session.answers,
        InitAnswers {
            server: l("host"),
            port: l("2222"),
            target_dir: l("/srv"),
            user: l("bob"),
            default: Some(l("sync")),
            exclude: vec![l("*.o"), l("target")],
        }
    );
}

#[test]
fn unknown_command_is_asked_again() {
    let mut session = run(&["host", "", "/srv", "bob"]);
    assert_eq!(session.stage, InitStage::DefaultCommand);
    for wrong in ["fetch", "Push", "pull", " "] {
        let before = session.clone();
        assert_eq!(session.answer(wrong), Reply::UnknownCommand);
        assert_eq!(session, before);
    }
    assert_eq!(session.answer("push"), Reply::Accepted);
    assert_eq!(session.stage, InitStage::Exclude);
    assert_eq!(session.answers.default, Some(l("push")));
    assert_eq!(unknown_command_notice(), "Unknown command.");
}

#[test]
fn empty_command_leaves_the_default_open() {
    let session = run(&["host", "", "/srv", "bob", ""]);
    assert_eq!(session.stage, InitStage::Exclude);
    assert_eq!(session.answers.default, None);
}

#[test]
fn empty_pattern_ends_the_dialogue() {
    let mut session = run(&["", "", "", "", "", ""]);
    assert!(session.is_done());
    assert_eq!(session.answers, InitAnswers::new());
    // answers after the end change nothing
    assert_eq!(session.answer("more"), Reply::Accepted);
    assert!(session.is_done());
    assert_eq!(session.answers, InitAnswers::default());
}

#[test]
fn file_holds_every_answer() {
    let session = run(&["host", "2222", "/srv/backup", "bob", "sync", "*.o", "target", "a b", ""]);
    assert_eq!(
        session.answers.render(),
        "server = \"host\"\n\
         port = 2222\n\
         user = \"bob\"\n\
         target_dir = \"/srv/backup\"\n\
         default = \"sync\"\n\
         exclude = [\n    \"*.o\",\n    \"target\",\n    \"a b\"\n]\n"
    );
}

#[test]
fn open_questions_leave_no_line() {
    assert_eq!(InitAnswers::new().render(), "");
    let session = run(&["", "", "/srv", "", "", ""]);
    assert_eq!(session.answers.render(), "target_dir = \"/srv\"\n");
    let session = run(&["host", "", "", "", "push", ""]);
    assert_eq!(session.answers.render(), "server = \"host\"\ndefault = \"push\"\n");
}

#[test]
fn single_pattern_has_no_comma() {
    let session = run(&["", "", "", "", "", "*.o", ""]);
    assert_eq!(session.answers.render(), "exclude = [\n    \"*.o\"\n]\n");
}

#[test]
fn file_is_read_back_as_written() {
    let session = run(&["host", "2222", "/srv/backup", "bob", "sync", "*.o", "target", ""]);
    let text = session.answers.render();
    let value: toml::Value = toml::from_str(&text).unwrap();
    assert_eq!(value.get("server").and_then(|v| v.as_str()), Some("host"));
    assert_eq!(value.get("port").and_then(|v| v.as_integer()), Some(2222));
    assert_eq!(value.get("user").and_then(|v| v.as_str()), Some("bob"));
    assert_eq!(value.get("target_dir").and_then(|v| v.as_str()), Some("/srv/backup"));
    assert_eq!(value.get("default").and_then(|v| v.as_str()), Some("sync"));
    let patterns: Vec<&str> = value
        .get("exclude")
        .and_then(|v| v.as_array())
        .unwrap()
        .iter()
        .map(|v| v.as_str().unwrap())
        .collect();
    assert_eq!(patterns, vec!["*.o", "target"]);
}

#[test]
fn file_without_answers_is_a_valid_empty_file() {
    let text = InitAnswers::new().render();
    let value: toml::Value = toml::from_str(&text).unwrap();
    assert!(value.as_table().unwrap().is_empty());
}
