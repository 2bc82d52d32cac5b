//! Whole extractions: everything that is done, whatever is reported, and what
//! can and cannot come of it.

use crate::chars::contains;
use crate::commands::{checkout_command, clone_command, deepen_command};
use crate::forge::domain;
use crate::pipeline::{
    begin, dir_prefix, next, waiting, ActionView, EventView, Failure, Phase, SessionView,
};
use vstd::prelude::*;

verus! {

/// What is done, in order, as `events` are reported one after the other to an
/// extraction that stands at `s`.
pub open spec fn answers(s: SessionView, events: Seq<EventView>) -> Seq<ActionView>
    decreases events.len(),
{
    if events.len() == 0 {
        Seq::empty()
    } else {
        seq![next(s, events[0]).1] + answers(next(s, events[0]).0, events.drop_first())
    }
}

/// Where an extraction that stands at `s` stands after `events` were reported
/// to it one after the other.
pub open spec fn after(s: SessionView, events: Seq<EventView>) -> SessionView
    decreases events.len(),
{
    if events.len() == 0 {
        s
    } else {
        after(next(s, events[0]).0, events.drop_first())
    }
}

/// How many reports an extraction can still take, at most, before it is over.
pub open spec fn distance(phase: Phase) -> nat {
    match phase {
        Phase::Downloading => 7,
        Phase::MakingDir => 6,
        Phase::Cloning => 5,
        Phase::CheckingOut => 4,
        Phase::Deepening => 3,
        Phase::CheckingOutAgain => 2,
        Phase::Reading => 1,
        Phase::Finished => 0,
    }
}

/// Everything that is done in an extraction to which `events` are reported:
/// what it begins with, then its answers.
pub open spec fn course(
    repo_url: Seq<char>,
    commit: Seq<char>,
    file: Seq<char>,
    git_only: bool,
    host: Seq<char>,
    events: Seq<EventView>,
) -> Seq<ActionView> {
    seq![begin(repo_url, commit, file, git_only, host).1] + answers(
        begin(repo_url, commit, file, git_only, host).0,
        events,
    )
}

/// The action reaches outside: it asks the mirror, makes a directory, runs
/// `git` or reads a file.
pub open spec fn reaches_out(a: ActionView) -> bool {
    a is Get || a is MakeDir || a is Git || a is Read
}

/// Every report brings an extraction nearer to its end, so that nothing is
/// waited for twice; and it leaves the repository, the commit and the file
/// that are asked for as they are.
pub proof fn lemma_nearer_to_the_end(s: SessionView, e: EventView)
    ensures
        s.phase != Phase::Finished ==> distance(next(s, e).0.phase) < distance(s.phase),
        s.phase == Phase::Finished ==> next(s, e).0 == s,
        next(s, e).0.repo_url == s.repo_url,
        next(s, e).0.commit == s.commit,
        next(s, e).0.file == s.file,
{
}

/// An extraction is over once as many reports were made to it as it could
/// take: after seven of them at the latest, whatever they are.
pub proof fn lemma_over_in_time(s: SessionView, events: Seq<EventView>)
    requires
        events.len() >= distance(s.phase),
    ensures
        after(s, events).phase == Phase::Finished,
    decreases events.len(),
{
    if events.len() > 0 {
        lemma_nearer_to_the_end(s, events[0]);
        lemma_over_in_time(next(s, events[0]).0, events.drop_first());
    }
}

/// There is one answer to each event.
pub proof fn lemma_answers_len(s: SessionView, events: Seq<EventView>)
    ensures
        answers(s, events).len() == events.len(),
    decreases events.len(),
{
    if events.len() > 0 {
        lemma_answers_len(next(s, events[0]).0, events.drop_first());
    }
}

/// The mirror is asked at the beginning of an extraction or never: no answer
/// to an event asks it.
pub proof fn lemma_answers_never_get(s: SessionView, events: Seq<EventView>, i: int)
    requires
        0 <= i < events.len(),
    ensures
        !(answers(s, events)[i] is Get),
    decreases events.len(),
{
    lemma_answers_len(s, events);
    if i > 0 {
        lemma_answers_len(next(s, events[0]).0, events.drop_first());
        lemma_answers_never_get(next(s, events[0]).0, events.drop_first(), i - 1);
    }
}

/// An extraction that is over stays so: whatever is reported to it then, it
/// neither prints nor reaches outside.
pub proof fn lemma_finished_is_final(s: SessionView, events: Seq<EventView>, i: int)
    requires
        s.phase == Phase::Finished,
        0 <= i < events.len(),
    ensures
        answers(s, events)[i] == (ActionView::Abort {
            failure: Failure::Unexpected,
            detail: Seq::empty(),
        }),
    decreases events.len(),
{
    lemma_answers_len(s, events);
    if i > 0 {
        lemma_answers_len(next(s, events[0]).0, events.drop_first());
        lemma_finished_is_final(next(s, events[0]).0, events.drop_first(), i - 1);
    }
}

/// The mirror is never asked for a repository whose URL does not hold
/// `github.com`: the extraction begins by asking for a directory to clone
/// into, and nothing that is done later asks the mirror.
pub proof fn lemma_other_hosts_are_cloned(
    repo_url: Seq<char>,
    commit: Seq<char>,
    file: Seq<char>,
    git_only: bool,
    host: Seq<char>,
    events: Seq<EventView>,
)
    requires
        !contains(repo_url, domain()),
    ensures
        course(repo_url, commit, file, git_only, host, events)[0] == (ActionView::MakeDir {
            prefix: dir_prefix(),
        }),
        begin(repo_url, commit, file, git_only, host).0.phase == Phase::MakingDir,
        forall|i: int|
            0 <= i <= events.len() ==> !(#[trigger] course(
                repo_url,
                commit,
                file,
                git_only,
                host,
                events,
            )[i] is Get),
{
    let s = begin(repo_url, commit, file, git_only, host).0;
    let all = course(repo_url, commit, file, git_only, host, events);
    lemma_answers_len(s, events);
    assert forall|i: int| 0 <= i <= events.len() implies !(#[trigger] all[i] is Get) by {
        if i > 0 {
            lemma_answers_never_get(s, events, i - 1);
        }
    }
}

/// With `git_only` the mirror is never asked, whatever the URL: the
/// extraction begins by asking for a directory to clone into, and nothing
/// that is done later asks the mirror.
pub proof fn lemma_git_only_is_cloned(
    repo_url: Seq<char>,
    commit: Seq<char>,
    file: Seq<char>,
    host: Seq<char>,
    events: Seq<EventView>,
)
    ensures
        course(repo_url, commit, file, true, host, events)[0] == (ActionView::MakeDir {
            prefix: dir_prefix(),
        }),
        begin(repo_url, commit, file, true, host).0.phase == Phase::MakingDir,
        forall|i: int|
            0 <= i <= events.len() ==> !(#[trigger] course(
                repo_url,
                commit,
                file,
                true,
                host,
                events,
            )[i] is Get),
{
    let s = begin(repo_url, commit, file, true, host).0;
    let all = course(repo_url, commit, file, true, host, events);
    lemma_answers_len(s, events);
    assert forall|i: int| 0 <= i <= events.len() implies !(#[trigger] all[i] is Get) by {
        if i > 0 {
            lemma_answers_never_get(s, events, i - 1);
        }
    }
}

/// When the mirror answers with status 200 and a text, that text is printed as
/// it is and the extraction is over: whatever is reported later, nothing is
/// cloned, run or read.
pub proof fn lemma_download_is_printed(
    s: SessionView,
    text: Seq<char>,
    later: Seq<EventView>,
    i: int,
)
    requires
        s.phase == Phase::Downloading,
        0 <= i < later.len(),
    ensures
        next(s, EventView::Response { status: 200, body: Some(text) }) == (
            waiting(s, Phase::Finished),
            ActionView::Print { text },
        ),
        !reaches_out(
            answers(
                next(s, EventView::Response { status: 200, body: Some(text) }).0,
                later,
            )[i],
        ),
        !(answers(next(s, EventView::Response { status: 200, body: Some(text) }).0, later)[i]
            is Print),
{
    lemma_finished_is_final(waiting(s, Phase::Finished), later, i);
}

/// When the mirror answers with another status than 200, whatever it sends,
/// the repository is cloned into the directory that is made for it, and the
/// commit checked out there.
pub proof fn lemma_refusal_is_cloned(
    s: SessionView,
    status: u16,
    body: Option<Seq<char>>,
    dir: Seq<char>,
    errors: Seq<char>,
)
    requires
        s.phase == Phase::Downloading,
        status != 200,
    ensures
        ({
            let (s1, a1) = next(s, EventView::Response { status, body });
            let (s2, a2) = next(s1, EventView::WorkDir { path: Some(dir) });
            let (s3, a3) = next(s2, EventView::Exit { success: true, errors });
            &&& a1 == ActionView::MakeDir { prefix: dir_prefix() }
            &&& a2 == ActionView::Git { args: clone_command(s.repo_url, dir), cwd: None }
            &&& a3 == ActionView::Git { args: checkout_command(s.commit), cwd: Some(dir) }
            &&& s3.phase == Phase::CheckingOut
        }),
{
}

/// When the mirror cannot be reached, or what it sends cannot be read, the
/// repository is cloned as well.
pub proof fn lemma_silence_is_cloned(s: SessionView, status: u16)
    requires
        s.phase == Phase::Downloading,
    ensures
        next(s, EventView::NoResponse) == (
            waiting(s, Phase::MakingDir),
            ActionView::MakeDir { prefix: dir_prefix() },
        ),
        next(s, EventView::Response { status, body: None }) == (
            waiting(s, Phase::MakingDir),
            ActionView::MakeDir { prefix: dir_prefix() },
        ),
{
}

/// When the first checkout fails, the clone is made whole and the commit
/// checked out once more, whatever came of making it whole. If that succeeds,
/// the file is read and what it holds is printed; if it fails too, the
/// extraction is given up.
pub proof fn lemma_second_checkout_decides(
    s: SessionView,
    first: Seq<char>,
    deepened: bool,
    second: Seq<char>,
    third: Seq<char>,
    text: Seq<char>,
)
    requires
        s.phase == Phase::CheckingOut,
    ensures
        ({
            let (s1, a1) = next(s, EventView::Exit { success: false, errors: first });
            let (s2, a2) = next(s1, EventView::Exit { success: deepened, errors: second });
            let (s3, a3) = next(s2, EventView::Exit { success: true, errors: third });
            let (s4, a4) = next(s3, EventView::File { text: Some(text) });
            let (t3, b3) = next(s2, EventView::Exit { success: false, errors: third });
            &&& a1 == ActionView::Git { args: deepen_command(), cwd: Some(s.dir) }
            &&& a2 == ActionView::Git { args: checkout_command(s.commit), cwd: Some(s.dir) }
            &&& a3 == ActionView::Read { dir: s.dir, file: s.file }
            &&& a4 == ActionView::Print { text }
            &&& s4.phase == Phase::Finished
            &&& b3 == ActionView::Abort { failure: Failure::Checkout, detail: third }
            &&& t3.phase == Phase::Finished
        }),
{
}

/// Nothing is printed in an extraction that is given up for a failure: not
/// before it, and not after it.
pub proof fn lemma_failure_prints_nothing(
    s: SessionView,
    events: Seq<EventView>,
    i: int,
    j: int,
)
    requires
        0 <= i < events.len(),
        0 <= j < events.len(),
        answers(s, events)[i] is Abort,
        answers(s, events)[i]->failure != Failure::Unexpected,
    ensures
        !(answers(s, events)[j] is Print),
    decreases events.len(),
{
    let t = next(s, events[0]).0;
    let a = next(s, events[0]).1;
    let rest = events.drop_first();
    lemma_answers_len(s, events);
    lemma_answers_len(t, rest);
    if a is Print || a is Abort {
        if i > 0 {
            lemma_finished_is_final(t, rest, i - 1);
        }
        if j > 0 {
            lemma_finished_is_final(t, rest, j - 1);
        }
    } else {
        if i > 0 && j > 0 {
            lemma_failure_prints_nothing(t, rest, i - 1, j - 1);
        }
    }
}

/// Nothing is printed in a whole extraction that is given up for a failure,
/// whatever is reported to it.
pub proof fn lemma_failed_course_prints_nothing(
    repo_url: Seq<char>,
    commit: Seq<char>,
    file: Seq<char>,
    git_only: bool,
    host: Seq<char>,
    events: Seq<EventView>,
    i: int,
    j: int,
)
    requires
        0 <= i <= events.len(),
        0 <= j <= events.len(),
        course(repo_url, commit, file, git_only, host, events)[i] is Abort,
        course(repo_url, commit, file, git_only, host, events)[i]->failure != Failure::Unexpected,
    ensures
        !(course(repo_url, commit, file, git_only, host, events)[j] is Print),
{
    let s = begin(repo_url, commit, file, git_only, host).0;
    lemma_answers_len(s, events);
    if i == 0 {
        if j > 0 {
            lemma_finished_is_final(s, events, j - 1);
        }
    } else if j > 0 {
        lemma_failure_prints_nothing(s, events, i - 1, j - 1);
    }
}

/// When the file cannot be read from the clone, the extraction is given up,
/// and nothing is printed, whatever is reported later.
pub proof fn lemma_missing_file_prints_nothing(s: SessionView, later: Seq<EventView>, j: int)
    requires
        s.phase == Phase::Reading,
        0 <= j <= later.len(),
    ensures
        answers(s, seq![EventView::File { text: None }] + later)[0] == (ActionView::Abort {
            failure: Failure::FileRead,
            detail: s.file,
        }),
        !(answers(s, seq![EventView::File { text: None }] + later)[j] is Print),
{
    let events = seq![EventView::File { text: None }] + later;
    lemma_answers_len(s, events);
    lemma_failure_prints_nothing(s, events, 0, j);
}

} // verus!
