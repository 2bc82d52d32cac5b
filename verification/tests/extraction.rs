use worker::cli::Args;
use worker::pipeline::{accept, Action, Event, Failure, Phase, Session};

const MIRROR: &str = "cdn.example";

fn args(repo: &str, commit: &str, file: &str, git_only: bool) -> Args {
    Args {
        cmd_extract_file: true,
        arg_repo: repo.to_string(),
        arg_commit: commit.to_string(),
        flag_file: file.to_string(),
        flag_help: false,
        flag_git_only: git_only,
        flag_version: false,
    }
}

fn widgets() -> Args {
    args("https://github.com/acme/widgets.git", "abc123", "rabbitci.json", false)
}

fn text(s: &str) -> Option<String> {
    Some(s.to_string())
}

fn exit(success: bool, errors: &str) -> Event {
    Event::Exit { success, errors: errors.to_string() }
}

fn make_dir() -> Action {
    Action::MakeDir { prefix: "temp_git_clone_dir".to_string() }
}

fn git(args: &[&str], dir: Option<&str>) -> Action {
    Action::Git {
        args: args.iter().map(|a| a.to_string()).collect(),
        cwd: dir.map(|d| d.to_string()),
    }
}

fn abort(failure: Failure, detail: &str) -> Action {
    Action::Abort { failure, detail: detail.to_string() }
}

/// Reports the events one after the other, and gathers the answers.
fn drive(session: Session, events: Vec<Event>) -> (Session, Vec<Action>) {
    let mut session = session;
    let mut answers = Vec::new();
    for event in events {
        let (next, action) = session.step(event);
        session = next;
        answers.push(action);
    }
    (session, answers)
}

/// An extraction of the widgets that has cloned into `/w` and waits for the
/// first checkout.
fn checking_out() -> Session {
    let (session, _) = Session::start(&args("/srv/widgets", "abc123", "rabbitci.json", false), MIRROR);
    let (session, _) = drive(
        session,
        vec![Event::WorkDir { path: text("/w") }, exit(true, "")],
    );
    assert_eq!(session.phase(), Phase::CheckingOut);
    session
}

#[test]
fn github_file_is_asked_of_the_mirror() {
    let (session, action) = Session::start(&widgets(), MIRROR);
    assert_eq!(
        action,
        Action::Get {
            url: "https://cdn.example/acme/widgets/abc123/rabbitci.json".to_string(),
            close: true,
            timeout: None,
        }
    );
    assert_eq!(session.phase(), Phase::Downloading);
    assert!(!session.is_finished());
}

#[test]
fn mirror_is_the_one_that_is_given() {
    let (_, action) = Session::start(
        &args("git@github.com:rust-lang/rust.git", "v1.0", "src/ci/build.json", false),
        "cdn.rawgit.com",
    );
    assert_eq!(
        action,
        Action::Get {
            url: "https://cdn.rawgit.com/rust-lang/rust/v1.0/src/ci/build.json".to_string(),
            close: true,
            timeout: None,
        }
    );
}

#[test]
fn downloaded_file_is_printed_as_it_is() {
    let (session, _) = Session::start(&widgets(), MIRROR);
    let body = "{\n  \"steps\": [\"make\"]\n}\n";
    let (session, action) = session.step(Event::Response { status: 200, body: text(body) });
    assert_eq!(action, Action::Print { text: body.to_string() });
    assert_eq!(session.phase(), Phase::Finished);
    assert!(session.is_finished());
}

#[test]
fn empty_download_is_printed() {
    let (session, _) = Session::start(&widgets(), MIRROR);
    let (_, action) = session.step(Event::Response { status: 200, body: text("") });
    assert_eq!(action, Action::Print { text: String::new() });
}

#[test]
fn nothing_is_cloned_after_a_download() {
    let (session, _) = Session::start(&widgets(), MIRROR);
    let (session, answers) = drive(
        session,
        vec![
            Event::Response { status: 200, body: text("x") },
            Event::WorkDir { path: text("/w") },
            exit(true, ""),
            Event::File { text: text("y") },
            Event::NoResponse,
        ],
    );
    assert_eq!(answers[0], Action::Print { text: "x".to_string() });
    for answer in &answers[1..] {
        assert_eq!(*answer, abort(Failure::Unexpected, ""));
    }
    assert!(session.is_finished());
}

#[test]
fn missing_file_on_the_mirror_is_cloned() {
    let (session, _) = Session::start(&widgets(), MIRROR);
    let (session, answers) = drive(
        session,
        vec![
            Event::Response { status: 404, body: text("Not Found") },
            Event::WorkDir { path: text("/tmp/temp_git_clone_dir.Xy1") },
            exit(true, "Cloning into..."),
            exit(true, ""),
            Event::File { text: text("{}") },
        ],
    );
    assert_eq!(
        answers,
        vec![
            make_dir(),
            git(
                &[
                    "clone",
                    "https://github.com/acme/widgets.git",
                    "/tmp/temp_git_clone_dir.Xy1",
                    "--depth=30",
                ],
                None,
            ),
            git(&["checkout", "abc123"], Some("/tmp/temp_git_clone_dir.Xy1")),
            Action::Read {
                dir: "/tmp/temp_git_clone_dir.Xy1".to_string(),
                file: "rabbitci.json".to_string(),
            },
            Action::Print { text: "{}".to_string() },
        ]
    );
    assert!(session.is_finished());
}

#[test]
fn any_other_status_is_cloned() {
    for status in [0u16, 100, 199, 201, 204, 206, 301, 304, 403, 404, 500, 503, 65535] {
        let (session, _) = Session::start(&widgets(), MIRROR);
        let (session, action) = session.step(Event::Response { status, body: text("body") });
        assert_eq!(action, make_dir(), "{}", status);
        assert_eq!(session.phase(), Phase::MakingDir);
    }
}

#[test]
fn unreadable_download_is_cloned() {
    let (session, _) = Session::start(&widgets(), MIRROR);
    let (session, action) = session.step(Event::Response { status: 200, body: None });
    assert_eq!(action, make_dir());
    assert_eq!(session.phase(), Phase::MakingDir);
}

#[test]
fn unreachable_mirror_is_cloned() {
    let (session, _) = Session::start(&widgets(), MIRROR);
    let (session, action) = session.step(Event::NoResponse);
    assert_eq!(action, make_dir());
    assert_eq!(session.phase(), Phase::MakingDir);
}

#[test]
fn other_hosts_are_cloned_at_once() {
    for url in ["https://gitlab.com/acme/widgets.git", "/srv/git/widgets", "git@example.org:a/b.git", ""] {
        let (session, action) = Session::start(&args(url, "abc123", "rabbitci.json", false), MIRROR);
        assert_eq!(action, make_dir(), "{}", url);
        assert_eq!(session.phase(), Phase::MakingDir);
        let (_, action) = session.step(Event::WorkDir { path: text("/w") });
        assert_eq!(action, git(&["clone", url, "/w", "--depth=30"], None));
    }
}

#[test]
fn git_only_is_cloned_at_once() {
    for url in [
        "https://github.com/acme/widgets.git",
        "git@github.com:acme/widgets.git",
        "https://github.com/not-a-repository",
        "https://gitlab.com/acme/widgets.git",
    ] {
        let (session, action) = Session::start(&args(url, "abc123", "rabbitci.json", true), MIRROR);
        assert_eq!(action, make_dir(), "{}", url);
        assert_eq!(session.phase(), Phase::MakingDir);
    }
}

#[test]
fn github_url_of_no_accepted_shape_is_refused() {
    for url in [
        "https://github.com/acme/widgets",
        "https://github.com/widgets.git",
        "ftp://github.com/acme/widgets.git",
        "github.com",
    ] {
        let (session, action) = Session::start(&args(url, "abc123", "rabbitci.json", false), MIRROR);
        assert_eq!(action, abort(Failure::UnsupportedUrl, url));
        assert!(session.is_finished());
    }
}

#[test]
fn no_directory_to_clone_into() {
    let (session, _) = Session::start(&args("/srv/widgets", "abc123", "rabbitci.json", false), MIRROR);
    let (session, action) = session.step(Event::WorkDir { path: None });
    assert_eq!(action, abort(Failure::WorkDir, ""));
    assert!(session.is_finished());
}

#[test]
fn failed_clone_is_fatal() {
    let (session, _) = Session::start(&args("/srv/widgets", "abc123", "rabbitci.json", false), MIRROR);
    let (session, answers) = drive(
        session,
        vec![Event::WorkDir { path: text("/w") }, exit(false, "fatal: repository not found")],
    );
    assert_eq!(answers[1], abort(Failure::Clone, "fatal: repository not found"));
    assert!(session.is_finished());
}

#[test]
fn git_that_does_not_start_is_fatal() {
    let no_git = || Event::NoSpawn { reason: "No such file or directory".to_string() };
    let fatal = abort(Failure::Spawn, "No such file or directory");

    let (session, _) = Session::start(&args("/srv/widgets", "abc123", "rabbitci.json", false), MIRROR);
    let (session, answers) = drive(session, vec![Event::WorkDir { path: text("/w") }, no_git()]);
    assert_eq!(answers[1], fatal);
    assert!(session.is_finished());

    let (session, action) = checking_out().step(no_git());
    assert_eq!(action, fatal);
    assert!(session.is_finished());

    let (session, answers) = drive(checking_out(), vec![exit(false, ""), no_git()]);
    assert_eq!(answers[1], fatal);
    assert!(session.is_finished());

    let (session, answers) = drive(checking_out(), vec![exit(false, ""), exit(true, ""), no_git()]);
    assert_eq!(answers[2], fatal);
    assert!(session.is_finished());
}

#[test]
fn first_checkout_that_succeeds_reads_the_file() {
    let (session, action) = checking_out().step(exit(true, ""));
    assert_eq!(action, Action::Read { dir: "/w".to_string(), file: "rabbitci.json".to_string() });
    assert_eq!(session.phase(), Phase::Reading);
}

#[test]
fn checkout_succeeds_after_deepening() {
    let (session, answers) = drive(
        checking_out(),
        vec![
            exit(false, "fatal: reference is not a tree: abc123"),
            exit(true, ""),
            exit(true, ""),
            Event::File { text: text("contents") },
        ],
    );
    assert_eq!(
        answers,
        vec![
            git(&["fetch", "--unshallow"], Some("/w")),
            git(&["checkout", "abc123"], Some("/w")),
            Action::Read { dir: "/w".to_string(), file: "rabbitci.json".to_string() },
            Action::Print { text: "contents".to_string() },
        ]
    );
    assert!(session.is_finished());
}

#[test]
fn checkout_is_tried_again_whatever_came_of_deepening() {
    let (session, answers) = drive(
        checking_out(),
        vec![exit(false, ""), exit(false, "fatal: --unshallow on a complete repository")],
    );
    assert_eq!(answers[1], git(&["checkout", "abc123"], Some("/w")));
    assert_eq!(session.phase(), Phase::CheckingOutAgain);
}

#[test]
fn two_failed_checkouts_are_fatal() {
    let (session, answers) = drive(
        checking_out(),
        vec![exit(false, "first"), exit(true, ""), exit(false, "second")],
    );
    assert_eq!(
        answers,
        vec![
            git(&["fetch", "--unshallow"], Some("/w")),
            git(&["checkout", "abc123"], Some("/w")),
            abort(Failure::Checkout, "second"),
        ]
    );
    assert!(session.is_finished());
}

#[test]
fn missing_file_is_fatal_and_prints_nothing() {
    let (session, answers) = drive(
        checking_out(),
        vec![exit(true, ""), Event::File { text: None }, Event::File { text: text("late") }],
    );
    assert_eq!(answers[1], abort(Failure::FileRead, "rabbitci.json"));
    assert_eq!(answers[2], abort(Failure::Unexpected, ""));
    assert!(answers.iter().all(|a| !matches!(a, Action::Print { .. })));
    assert!(session.is_finished());
}

#[test]
fn report_that_is_not_waited_for_is_fatal() {
    let (session, _) = Session::start(&widgets(), MIRROR);
    let (session, action) = session.step(Event::File { text: text("x") });
    assert_eq!(action, abort(Failure::Unexpected, ""));
    assert!(session.is_finished());

    let (session, _) = Session::start(&args("/srv/widgets", "abc123", "rabbitci.json", false), MIRROR);
    let (session, action) = session.step(Event::Response { status: 200, body: text("x") });
    assert_eq!(action, abort(Failure::Unexpected, ""));
    assert!(session.is_finished());

    let (session, action) = checking_out().step(Event::WorkDir { path: text("/other") });
    assert_eq!(action, abort(Failure::Unexpected, ""));
    assert!(session.is_finished());
}

#[test]
fn phases_follow_one_another() {
    let (session, _) = Session::start(&widgets(), MIRROR);
    assert_eq!(session.phase(), Phase::Downloading);
    let (session, _) = session.step(Event::NoResponse);
    assert_eq!(session.phase(), Phase::MakingDir);
    let (session, _) = session.step(Event::WorkDir { path: text("/w") });
    assert_eq!(session.phase(), Phase::Cloning);
    let (session, _) = session.step(exit(true, ""));
    assert_eq!(session.phase(), Phase::CheckingOut);
    let (session, _) = session.step(exit(false, ""));
    assert_eq!(session.phase(), Phase::Deepening);
    let (session, _) = session.step(exit(true, ""));
    assert_eq!(session.phase(), Phase::CheckingOutAgain);
    let (session, _) = session.step(exit(true, ""));
    assert_eq!(session.phase(), Phase::Reading);
    let (session, _) = session.step(Event::File { text: text("x") });
    assert_eq!(session.phase(), Phase::Finished);
}

#[test]
fn failures_are_told_apart() {
    assert_eq!(Failure::UnsupportedUrl.message(), "Not a GitHub repository URL: ");
    assert_eq!(Failure::WorkDir.message(), "Could not make a directory to clone into");
    assert_eq!(Failure::Spawn.message(), "Failed to run git: ");
    assert_eq!(Failure::Clone.message(), "Git clone failed! ");
    assert_eq!(Failure::Checkout.message(), "Cannot checkout commit");
    assert_eq!(Failure::FileRead.message(), "Could not get file! ");
    assert_eq!(Failure::Unexpected.message(), "Unexpected report");
}

#[test]
fn failures_end_like_a_panic() {
    for failure in [
        Failure::UnsupportedUrl,
        Failure::WorkDir,
        Failure::Spawn,
        Failure::Clone,
        Failure::Checkout,
        Failure::FileRead,
        Failure::Unexpected,
    ] {
        assert_eq!(failure.exit_code(), 101);
    }
}

#[test]
fn usage_names_the_command_line() {
    assert!(worker::cli::USAGE.contains(
        "worker extract-file <repo> <commit> [--file <arg>] [--help] [--git-only]"
    ));
    assert!(worker::cli::USAGE.contains("[default: rabbitci.json]"));
}

#[test]
fn only_status_200_is_a_download() {
    assert_eq!(accept(200, text("body")), text("body"));
    assert_eq!(accept(200, text("")), text(""));
    assert_eq!(accept(200, None), None);
    assert_eq!(accept(199, text("body")), None);
    assert_eq!(accept(201, text("body")), None);
    assert_eq!(accept(404, text("Not Found")), None);
    assert_eq!(accept(0, None), None);
}
