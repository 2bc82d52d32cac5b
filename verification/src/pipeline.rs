//! The course of one extraction, as a machine that is told what happened
//! outside and answers with what is to be done next.
//!
//! The file is first asked of the mirror, unless that is switched off or the
//! repository is not one of GitHub's. Whatever goes wrong there, the
//! repository is cloned instead, the commit checked out (once more after the
//! clone was made whole, if the first attempt fails), and the file read from
//! the clone.

use crate::chars::contains;
use crate::cli::{Args, RepoInfo};
use crate::commands::{
    checkout_args, checkout_command, clone_args, clone_command, deepen_args, deepen_command,
    raw_file_url, raw_url,
};
use crate::forge::{domain, find_repo_tuple, repo_tuple};
use vstd::prelude::*;

verus! {

/// Why an extraction was given up.
#[derive(Clone, Copy, Debug, PartialEq, Eq, Structural)]
pub enum Failure {
    /// The URL holds `github.com` and has none of the accepted shapes.
    UnsupportedUrl,
    /// No directory could be made to clone into.
    WorkDir,
    /// `git` could not be started.
    Spawn,
    /// `git clone` failed.
    Clone,
    /// The commit could not be checked out, not even from the whole history.
    Checkout,
    /// The file could not be read from the clone.
    FileRead,
    /// Something was reported that was not waited for.
    Unexpected,
}

/// What an extraction is waiting for.
#[derive(Clone, Copy, Debug, PartialEq, Eq, Structural)]
pub enum Phase {
    /// The answer of the mirror.
    Downloading,
    /// A directory to clone into.
    MakingDir,
    /// The end of `git clone`.
    Cloning,
    /// The end of the first `git checkout`.
    CheckingOut,
    /// The end of `git fetch --unshallow`, well or not.
    Deepening,
    /// The end of the second `git checkout`.
    CheckingOutAgain,
    /// The text of the file in the clone.
    Reading,
    /// Nothing: the file was printed, or the extraction given up.
    Finished,
}

/// What happened outside.
#[derive(Clone, Debug, PartialEq, Eq)]
pub enum Event {
    /// The mirror answered with `status`; `body` is the text it sent, if that
    /// could be read.
    Response { status: u16, body: Option<String> },
    /// The mirror could not be reached.
    NoResponse,
    /// The directory at `path` was made, or none could be.
    WorkDir { path: Option<String> },
    /// `git` ran and ended, well or not, and wrote `errors`.
    Exit { success: bool, errors: String },
    /// `git` could not be started, for `reason`.
    NoSpawn { reason: String },
    /// The file was read and holds `text`, or it could not be read.
    File { text: Option<String> },
}

/// What is to be done next.
#[derive(Clone, Debug, PartialEq, Eq)]
pub enum Action {
    /// Ask the mirror for `url`, once, with the connection closed after the
    /// answer if `close` is set, waiting for the answer no longer than
    /// `timeout` seconds if there is one, and report a `Response` or
    /// `NoResponse`.
    Get { url: String, close: bool, timeout: Option<u64> },
    /// Make a directory of its own whose name begins with `prefix`, and report
    /// a `WorkDir`.
    MakeDir { prefix: String },
    /// Run `git` with `args`, inside `cwd` if there is one, and report an
    /// `Exit` or a `NoSpawn`.
    Git { args: Vec<String>, cwd: Option<String> },
    /// Read `file` inside `dir`, and report a `File`.
    Read { dir: String, file: String },
    /// Write `text` to the standard output, and end well.
    Print { text: String },
    /// Give up for `failure`, of which `detail` says more, and write nothing
    /// to the standard output.
    Abort { failure: Failure, detail: String },
}

/// One extraction under way.
#[derive(Clone, Debug, PartialEq, Eq)]
pub struct Session {
    repo: RepoInfo,
    file: String,
    dir: String,
    phase: Phase,
}

/// An `Event`, as the text it carries.
pub enum EventView {
    Response { status: u16, body: Option<Seq<char>> },
    NoResponse,
    WorkDir { path: Option<Seq<char>> },
    Exit { success: bool, errors: Seq<char> },
    NoSpawn { reason: Seq<char> },
    File { text: Option<Seq<char>> },
}

/// An `Action`, as the text it carries.
pub enum ActionView {
    Get { url: Seq<char>, close: bool, timeout: Option<u64> },
    MakeDir { prefix: Seq<char> },
    Git { args: Seq<Seq<char>>, cwd: Option<Seq<char>> },
    Read { dir: Seq<char>, file: Seq<char> },
    Print { text: Seq<char> },
    Abort { failure: Failure, detail: Seq<char> },
}

/// A `Session`, as the text it carries: the repository and the commit, the
/// file that is wanted, the directory of the clone (empty until there is
/// one), and what is waited for.
pub struct SessionView {
    pub repo_url: Seq<char>,
    pub commit: Seq<char>,
    pub file: Seq<char>,
    pub dir: Seq<char>,
    pub phase: Phase,
}

impl View for Event {
    type V = EventView;

    open spec fn view(&self) -> EventView {
        match self {
            Event::Response { status, body } => EventView::Response {
                status: *status,
                body: body.deep_view(),
            },
            Event::NoResponse => EventView::NoResponse,
            Event::WorkDir { path } => EventView::WorkDir { path: path.deep_view() },
            Event::Exit { success, errors } => EventView::Exit {
                success: *success,
                errors: errors@,
            },
            Event::NoSpawn { reason } => EventView::NoSpawn { reason: reason@ },
            Event::File { text } => EventView::File { text: text.deep_view() },
        }
    }
}

impl View for Action {
    type V = ActionView;

    open spec fn view(&self) -> ActionView {
        match self {
            Action::Get { url, close, timeout } => ActionView::Get {
                url: url@,
                close: *close,
                timeout: *timeout,
            },
            Action::MakeDir { prefix } => ActionView::MakeDir { prefix: prefix@ },
            Action::Git { args, cwd } => ActionView::Git {
                args: args.deep_view(),
                cwd: cwd.deep_view(),
            },
            Action::Read { dir, file } => ActionView::Read { dir: dir@, file: file@ },
            Action::Print { text } => ActionView::Print { text: text@ },
            Action::Abort { failure, detail } => ActionView::Abort {
                failure: *failure,
                detail: detail@,
            },
        }
    }
}

impl View for Session {
    type V = SessionView;

    closed spec fn view(&self) -> SessionView {
        SessionView {
            repo_url: self.repo.repo_url@,
            commit: self.repo.commit@,
            file: self.file@,
            dir: self.dir@,
            phase: self.phase,
        }
    }
}

/// How the directories that are cloned into begin their names.
pub open spec fn dir_prefix() -> Seq<char> {
    "temp_git_clone_dir"@
}

/// What a download yields: the text that the mirror sent, if it answered with
/// status 200 and the text could be read.
pub open spec fn downloaded(status: u16, body: Option<Seq<char>>) -> Option<Seq<char>> {
    if status == 200 {
        body
    } else {
        None
    }
}

/// `s`, waiting for something else.
pub open spec fn waiting(s: SessionView, phase: Phase) -> SessionView {
    SessionView { phase, ..s }
}

/// The extraction is given up.
pub open spec fn give_up(s: SessionView, failure: Failure, detail: Seq<char>) -> (
    SessionView,
    ActionView,
) {
    (waiting(s, Phase::Finished), ActionView::Abort { failure, detail })
}

/// The mirror is left aside, and a directory asked for to clone into.
pub open spec fn fall_back(s: SessionView) -> (SessionView, ActionView) {
    (waiting(s, Phase::MakingDir), ActionView::MakeDir { prefix: dir_prefix() })
}

/// The commit is checked out in the clone, and `phase` waits for the end of
/// it.
pub open spec fn check_out(s: SessionView, phase: Phase) -> (SessionView, ActionView) {
    (waiting(s, phase), ActionView::Git { args: checkout_command(s.commit), cwd: Some(s.dir) })
}

/// How an extraction begins.
///
/// Where the mirror may be asked and the URL holds `github.com`, the file is
/// asked of the mirror `host`, over a connection that is closed after the
/// answer and without a limit of time, or the extraction given up if the URL
/// has none of the accepted shapes. Otherwise a directory is asked for to
/// clone into.
pub open spec fn begin(
    repo_url: Seq<char>,
    commit: Seq<char>,
    file: Seq<char>,
    git_only: bool,
    host: Seq<char>,
) -> (SessionView, ActionView) {
    let s = SessionView { repo_url, commit, file, dir: Seq::empty(), phase: Phase::Downloading };
    if !git_only && contains(repo_url, domain()) {
        match repo_tuple(repo_url) {
            Some((org, name)) => (
                s,
                ActionView::Get {
                    url: raw_url(host, org, name, commit, file),
                    close: true,
                    timeout: None,
                },
            ),
            None => give_up(s, Failure::UnsupportedUrl, repo_url),
        }
    } else {
        fall_back(s)
    }
}

/// How an extraction goes on when `e` is reported: what it waits for then, and
/// what is to be done.
///
/// Only status 200 with a text that could be read ends the download well;
/// every other answer of the mirror, and none, leads to the clone. A `git`
/// that cannot be started, a clone that fails, a second checkout that fails
/// and a file that cannot be read end the extraction. So does a report that
/// the phase does not wait for.
pub open spec fn next(s: SessionView, e: EventView) -> (SessionView, ActionView) {
    match s.phase {
        Phase::Downloading => match e {
            EventView::Response { status, body } => match downloaded(status, body) {
                Some(text) => (waiting(s, Phase::Finished), ActionView::Print { text }),
                None => fall_back(s),
            },
            EventView::NoResponse => fall_back(s),
            _ => give_up(s, Failure::Unexpected, Seq::empty()),
        },
        Phase::MakingDir => match e {
            EventView::WorkDir { path: Some(dir) } => (
                SessionView { dir, phase: Phase::Cloning, ..s },
                ActionView::Git { args: clone_command(s.repo_url, dir), cwd: None },
            ),
            EventView::WorkDir { path: None } => give_up(s, Failure::WorkDir, Seq::empty()),
            _ => give_up(s, Failure::Unexpected, Seq::empty()),
        },
        Phase::Cloning => match e {
            EventView::Exit { success, errors } => if success {
                check_out(s, Phase::CheckingOut)
            } else {
                give_up(s, Failure::Clone, errors)
            },
            EventView::NoSpawn { reason } => give_up(s, Failure::Spawn, reason),
            _ => give_up(s, Failure::Unexpected, Seq::empty()),
        },
        Phase::CheckingOut => match e {
            EventView::Exit { success, errors } => if success {
                (waiting(s, Phase::Reading), ActionView::Read { dir: s.dir, file: s.file })
            } else {
                (
                    waiting(s, Phase::Deepening),
                    ActionView::Git { args: deepen_command(), cwd: Some(s.dir) },
                )
            },
            EventView::NoSpawn { reason } => give_up(s, Failure::Spawn, reason),
            _ => give_up(s, Failure::Unexpected, Seq::empty()),
        },
        Phase::Deepening => match e {
            EventView::Exit { success, errors } => check_out(s, Phase::CheckingOutAgain),
            EventView::NoSpawn { reason } => give_up(s, Failure::Spawn, reason),
            _ => give_up(s, Failure::Unexpected, Seq::empty()),
        },
        Phase::CheckingOutAgain => match e {
            EventView::Exit { success, errors } => if success {
                (waiting(s, Phase::Reading), ActionView::Read { dir: s.dir, file: s.file })
            } else {
                give_up(s, Failure::Checkout, errors)
            },
            EventView::NoSpawn { reason } => give_up(s, Failure::Spawn, reason),
            _ => give_up(s, Failure::Unexpected, Seq::empty()),
        },
        Phase::Reading => match e {
            EventView::File { text: Some(text) } => (
                waiting(s, Phase::Finished),
                ActionView::Print { text },
            ),
            EventView::File { text: None } => give_up(s, Failure::FileRead, s.file),
            _ => give_up(s, Failure::Unexpected, Seq::empty()),
        },
        Phase::Finished => give_up(s, Failure::Unexpected, Seq::empty()),
    }
}

/// What a download yields: the text that the mirror sent, if it answered with
/// status 200 and the text could be read.
pub fn accept(status: u16, body: Option<String>) -> (text: Option<String>)
    ensures
        text.deep_view() == downloaded(status, body.deep_view()),
{
    if status == 200 {
        body
    } else {
        None
    }
}

impl Failure {
    /// What is said of the failure: one line, which what the failure came
    /// with may follow.
    pub open spec fn text(self) -> Seq<char> {
        match self {
            Failure::UnsupportedUrl => "Not a GitHub repository URL: "@,
            Failure::WorkDir => "Could not make a directory to clone into"@,
            Failure::Spawn => "Failed to run git: "@,
            Failure::Clone => "Git clone failed! "@,
            Failure::Checkout => "Cannot checkout commit"@,
            Failure::FileRead => "Could not get file! "@,
            Failure::Unexpected => "Unexpected report"@,
        }
    }

    /// What is said of the failure.
    pub fn message(&self) -> (m: String)
        ensures
            m@ == self.text(),
    {
        match self {
            Failure::UnsupportedUrl => String::from_str("Not a GitHub repository URL: "),
            Failure::WorkDir => String::from_str("Could not make a directory to clone into"),
            Failure::Spawn => String::from_str("Failed to run git: "),
            Failure::Clone => String::from_str("Git clone failed! "),
            Failure::Checkout => String::from_str("Cannot checkout commit"),
            Failure::FileRead => String::from_str("Could not get file! "),
            Failure::Unexpected => String::from_str("Unexpected report"),
        }
    }

    /// The status that the process ends with after the failure: that of a
    /// panic, whatever the failure.
    pub fn exit_code(&self) -> (code: i32)
        ensures
            code == 101,
    {
        101
    }
}

impl Session {
    /// What the extraction waits for.
    pub fn phase(&self) -> (phase: Phase)
        ensures
            phase == self@.phase,
    {
        self.phase
    }

    /// Whether the extraction is over.
    pub fn is_finished(&self) -> (b: bool)
        ensures
            b == (self@.phase == Phase::Finished),
    {
        self.phase == Phase::Finished
    }

    /// Begins the extraction that `args` asks for, with `host` as the mirror.
    pub fn start(args: &Args, host: &str) -> (r: (Session, Action))
        ensures
            (r.0@, r.1@) == begin(
                args.arg_repo@,
                args.arg_commit@,
                args.flag_file@,
                args.flag_git_only,
                host@,
            ),
    {
        let session = Session {
            repo: RepoInfo { repo_url: args.arg_repo.clone(), commit: args.arg_commit.clone() },
            file: args.flag_file.clone(),
            dir: String::new(),
            phase: Phase::Downloading,
        };
        if !args.flag_git_only && session.repo.is_github_repo() {
            match find_repo_tuple(args.arg_repo.as_str()) {
                Some((org, name)) => {
                    let url = raw_file_url(
                        host,
                        org.as_str(),
                        name.as_str(),
                        args.arg_commit.as_str(),
                        args.flag_file.as_str(),
                    );
                    (session, Action::Get { url, close: true, timeout: None })
                },
                None => {
                    let detail = args.arg_repo.clone();
                    session.give_up(Failure::UnsupportedUrl, detail)
                },
            }
        } else {
            session.fall_back()
        }
    }

    /// Goes on with the extraction after `event`.
    pub fn step(self, event: Event) -> (r: (Session, Action))
        ensures
            (r.0@, r.1@) == next(self@, event@),
    {
        match self.phase {
            Phase::Downloading => match event {
                Event::Response { status, body } => match accept(status, body) {
                    Some(text) => (self.wait_for(Phase::Finished), Action::Print { text }),
                    None => self.fall_back(),
                },
                Event::NoResponse => self.fall_back(),
                _ => self.give_up(Failure::Unexpected, String::new()),
            },
            Phase::MakingDir => match event {
                Event::WorkDir { path: Some(dir) } => {
                    let args = clone_args(self.repo.repo_url.as_str(), dir.as_str());
                    let session = Session {
                        repo: self.repo,
                        file: self.file,
                        dir,
                        phase: Phase::Cloning,
                    };
                    (session, Action::Git { args, cwd: None })
                },
                Event::WorkDir { path: None } => self.give_up(Failure::WorkDir, String::new()),
                _ => self.give_up(Failure::Unexpected, String::new()),
            },
            Phase::Cloning => match event {
                Event::Exit { success, errors } => {
                    if success {
                        self.check_out(Phase::CheckingOut)
                    } else {
                        self.give_up(Failure::Clone, errors)
                    }
                },
                Event::NoSpawn { reason } => self.give_up(Failure::Spawn, reason),
                _ => self.give_up(Failure::Unexpected, String::new()),
            },
            Phase::CheckingOut => match event {
                Event::Exit { success, errors: _ } => {
                    if success {
                        self.read()
                    } else {
                        let args = deepen_args();
                        let cwd = Some(self.dir.clone());
                        (self.wait_for(Phase::Deepening), Action::Git { args, cwd })
                    }
                },
                Event::NoSpawn { reason } => self.give_up(Failure::Spawn, reason),
                _ => self.give_up(Failure::Unexpected, String::new()),
            },
            Phase::Deepening => match event {
                Event::Exit { success: _, errors: _ } => self.check_out(Phase::CheckingOutAgain),
                Event::NoSpawn { reason } => self.give_up(Failure::Spawn, reason),
                _ => self.give_up(Failure::Unexpected, String::new()),
            },
            Phase::CheckingOutAgain => match event {
                Event::Exit { success, errors } => {
                    if success {
                        self.read()
                    } else {
                        self.give_up(Failure::Checkout, errors)
                    }
                },
                Event::NoSpawn { reason } => self.give_up(Failure::Spawn, reason),
                _ => self.give_up(Failure::Unexpected, String::new()),
            },
            Phase::Reading => match event {
                Event::File { text: Some(text) } => (
                    self.wait_for(Phase::Finished),
                    Action::Print { text },
                ),
                Event::File { text: None } => {
                    let detail = self.file.clone();
                    self.give_up(Failure::FileRead, detail)
                },
                _ => self.give_up(Failure::Unexpected, String::new()),
            },
            Phase::Finished => self.give_up(Failure::Unexpected, String::new()),
        }
    }

    fn wait_for(self, phase: Phase) -> (r: Session)
        ensures
            r@ == waiting(self@, phase),
    {
        Session { repo: self.repo, file: self.file, dir: self.dir, phase }
    }

    fn give_up(self, failure: Failure, detail: String) -> (r: (Session, Action))
        ensures
            (r.0@, r.1@) == give_up(self@, failure, detail@),
    {
        (self.wait_for(Phase::Finished), Action::Abort { failure, detail })
    }

    fn fall_back(self) -> (r: (Session, Action))
        ensures
            (r.0@, r.1@) == fall_back(self@),
    {
        let prefix = String::from_str("temp_git_clone_dir");
        (self.wait_for(Phase::MakingDir), Action::MakeDir { prefix })
    }

    fn check_out(self, phase: Phase) -> (r: (Session, Action))
        ensures
            (r.0@, r.1@) == check_out(self@, phase),
    {
        let args = checkout_args(self.repo.commit.as_str());
        let cwd = Some(self.dir.clone());
        (self.wait_for(phase), Action::Git { args, cwd })
    }

    fn read(self) -> (r: (Session, Action))
        ensures
            r.0@ == waiting(self@, Phase::Reading),
            r.1@ == (ActionView::Read { dir: self@.dir, file: self@.file }),
    {
        let dir = self.dir.clone();
        let file = self.file.clone();
        (self.wait_for(Phase::Reading), Action::Read { dir, file })
    }
}

} // verus!
