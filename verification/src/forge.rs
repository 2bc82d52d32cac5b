//! The grammar of GitHub repository URLs.
//!
//! A URL is searched, from the left, for one of a fixed list of openings
//! (`git@github.com:`, `https://github.com/`, ...). What follows the opening,
//! up to the last `.git` that can be reached without crossing a blank, is the
//! path; its first two segments between slashes are the organization and the
//! repository name.

use crate::chars::{
    blank, contains, first_at, first_index, is_blank, lemma_first_at, lemma_first_at_is,
    lemma_occurs_at, occurs_at, solid, starts_at, to_chars,
};
use vstd::prelude::*;

verus! {

/// The grammar as a pattern, for an engine of regular expressions that takes
/// the leftmost match and, in it, the first alternative and the longest
/// repetition that fit: the path is the first group.
pub const PATTERN: &'static str =
    r"(?:(?:ssh://)?git@github\.com(?::|/)|(?:https?|git|ssh)://github\.com/)(\S+)(?:\.git)";

/// The domain by which a GitHub URL is known.
pub open spec fn domain() -> Seq<char> {
    "github.com"@
}

/// What closes the path of a repository URL.
pub open spec fn ending() -> Seq<char> {
    ".git"@
}

/// The accepted openings of a repository URL, in the order in which they are
/// tried.
pub open spec fn openings() -> Seq<Seq<char>> {
    seq![
        "ssh://git@github.com:"@,
        "ssh://git@github.com/"@,
        "git@github.com:"@,
        "git@github.com/"@,
        "https://github.com/"@,
        "http://github.com/"@,
        "git://github.com/"@,
        "ssh://github.com/"@,
    ]
}

/// One of the openings stands at `start` and ends just before `from`.
pub open spec fn opens(url: Seq<char>, start: int, from: int) -> bool {
    exists|k: int|
        0 <= k < openings().len() && #[trigger] occurs_at(url, openings()[k], start) && from
            == start + openings()[k].len()
}

/// `from..to` is a non-empty stretch of `url` without a blank, and the ending
/// stands at `to`.
pub open spec fn closes(url: Seq<char>, from: int, to: int) -> bool {
    &&& 0 <= from < to
    &&& occurs_at(url, ending(), to)
    &&& solid(url.subrange(from, to))
}

/// `url` has the shape of a repository URL from `start` on, with its path at
/// `from..to`.
pub open spec fn shaped(url: Seq<char>, start: int, from: int, to: int) -> bool {
    opens(url, start, from) && closes(url, from, to)
}

/// `start` is the leftmost index from which `url` is shaped, and `from..to`
/// the longest path from there.
pub open spec fn captured(url: Seq<char>, start: int, from: int, to: int) -> bool {
    &&& shaped(url, start, from, to)
    &&& forall|a: int, b: int, c: int| #[trigger]
        shaped(url, a, b, c) ==> start < a || (start == a && c <= to)
}

/// The path of `url`: what stands between the leftmost opening that can be
/// closed and the last ending it can be closed with.
pub open spec fn path(url: Seq<char>) -> Option<Seq<char>> {
    if exists|a: int, b: int, c: int| captured(url, a, b, c) {
        let (a, b, c) = choose|a: int, b: int, c: int| captured(url, a, b, c);
        Some(url.subrange(b, c))
    } else {
        None
    }
}

/// The organization and the repository name of a path: its first two segments
/// between slashes. A path without a slash has none.
pub open spec fn owner_and_name(path: Seq<char>) -> Option<(Seq<char>, Seq<char>)> {
    let i = first_at(path, '/', 0, path.len() as int);
    if i == path.len() {
        None
    } else {
        let j = first_at(path, '/', i + 1, path.len() as int);
        Some((path.subrange(0, i), path.subrange(i + 1, j)))
    }
}

/// The organization and the repository name that `url` names, where it has the
/// shape of a repository URL and its path holds a slash.
pub open spec fn repo_tuple(url: Seq<char>) -> Option<(Seq<char>, Seq<char>)> {
    match path(url) {
        Some(p) => owner_and_name(p),
        None => None,
    }
}

/// What the literals of the grammar hold.
proof fn lemma_literals()
    ensures
        openings().len() == 8,
        openings()[0] == "ssh://git@github.com:"@,
        openings()[1] == "ssh://git@github.com/"@,
        openings()[2] == "git@github.com:"@,
        openings()[3] == "git@github.com/"@,
        openings()[4] == "https://github.com/"@,
        openings()[5] == "http://github.com/"@,
        openings()[6] == "git://github.com/"@,
        openings()[7] == "ssh://github.com/"@,
        openings()[0].len() == 21,
        openings()[1].len() == 21,
        openings()[2].len() == 15,
        openings()[3].len() == 15,
        openings()[4].len() == 19,
        openings()[5].len() == 18,
        openings()[6].len() == 17,
        openings()[7].len() == 17,
        ending() == seq!['.', 'g', 'i', 't'],
        domain().len() == 10,
{
    reveal_strlit("ssh://git@github.com:");
    reveal_strlit("ssh://git@github.com/");
    reveal_strlit("git@github.com:");
    reveal_strlit("git@github.com/");
    reveal_strlit("https://github.com/");
    reveal_strlit("http://github.com/");
    reveal_strlit("git://github.com/");
    reveal_strlit("ssh://github.com/");
    reveal_strlit(".git");
    reveal_strlit("github.com");
    assert(ending() =~= seq!['.', 'g', 'i', 't']);
}

/// No two openings stand at the same index.
pub proof fn lemma_one_opening(url: Seq<char>, start: int, j: int, k: int)
    requires
        0 <= j < openings().len(),
        0 <= k < openings().len(),
        occurs_at(url, openings()[j], start),
        occurs_at(url, openings()[k], start),
    ensures
        j == k,
{
    lemma_literals();
    reveal_strlit("ssh://git@github.com:");
    reveal_strlit("ssh://git@github.com/");
    reveal_strlit("git@github.com:");
    reveal_strlit("git@github.com/");
    reveal_strlit("https://github.com/");
    reveal_strlit("http://github.com/");
    reveal_strlit("git://github.com/");
    reveal_strlit("ssh://github.com/");
    lemma_occurs_at(url, openings()[j], start);
    lemma_occurs_at(url, openings()[k], start);
    let a = openings()[j];
    let b = openings()[k];
    assert(a[0] == url[start + 0] && b[0] == url[start + 0]);
    assert(a[3] == url[start + 3] && b[3] == url[start + 3]);
    assert(a[4] == url[start + 4] && b[4] == url[start + 4]);
    assert(a[9] == url[start + 9] && b[9] == url[start + 9]);
    assert(a[14] == url[start + 14] && b[14] == url[start + 14]);
    if j <= 1 && k <= 1 {
        assert(a[20] == url[start + 20] && b[20] == url[start + 20]);
    }
}

/// The opening that stands at an index fixes where the path begins.
pub proof fn lemma_opens_once(url: Seq<char>, start: int, from: int, other: int)
    requires
        opens(url, start, from),
        opens(url, start, other),
    ensures
        from == other,
{
    let j = choose|j: int|
        0 <= j < openings().len() && #[trigger] occurs_at(url, openings()[j], start) && from
            == start + openings()[j].len();
    let k = choose|k: int|
        0 <= k < openings().len() && #[trigger] occurs_at(url, openings()[k], start) && other
            == start + openings()[k].len();
    lemma_one_opening(url, start, j, k);
}

/// A URL is captured in one way at most.
pub proof fn lemma_captured_once(url: Seq<char>, a: (int, int, int), b: (int, int, int))
    requires
        captured(url, a.0, a.1, a.2),
        captured(url, b.0, b.1, b.2),
    ensures
        a == b,
{
    assert(shaped(url, a.0, a.1, a.2));
    assert(shaped(url, b.0, b.1, b.2));
    lemma_opens_once(url, a.0, a.1, b.1);
}

/// The path of a URL that is captured at `from..to`.
pub proof fn lemma_path(url: Seq<char>, start: int, from: int, to: int)
    requires
        captured(url, start, from, to),
    ensures
        path(url) == Some(url.subrange(from, to)),
{
    let (a, b, c) = choose|a: int, b: int, c: int| captured(url, a, b, c);
    lemma_captured_once(url, (start, from, to), (a, b, c));
}

/// The openings, as characters.
fn opening_forms() -> (forms: Vec<Vec<char>>)
    ensures
        forms@.len() == openings().len(),
        forall|k: int| 0 <= k < forms@.len() ==> (#[trigger] forms@[k])@ == openings()[k],
{
    let mut forms: Vec<Vec<char>> = Vec::new();
    forms.push(to_chars("ssh://git@github.com:"));
    forms.push(to_chars("ssh://git@github.com/"));
    forms.push(to_chars("git@github.com:"));
    forms.push(to_chars("git@github.com/"));
    forms.push(to_chars("https://github.com/"));
    forms.push(to_chars("http://github.com/"));
    forms.push(to_chars("git://github.com/"));
    forms.push(to_chars("ssh://github.com/"));
    forms
}

/// Where the path begins, if an opening stands at `start`.
fn opening_end(url: &Vec<char>, forms: &Vec<Vec<char>>, start: usize) -> (r: Option<usize>)
    requires
        forms@.len() == openings().len(),
        forall|k: int| 0 <= k < forms@.len() ==> (#[trigger] forms@[k])@ == openings()[k],
    ensures
        match r {
            Some(from) => opens(url@, start as int, from as int),
            None => forall|from: int| !opens(url@, start as int, from),
        },
{
    let mut k: usize = 0;
    while k < forms.len()
        invariant
            k <= forms@.len(),
            forms@.len() == openings().len(),
            forall|j: int| 0 <= j < forms@.len() ==> (#[trigger] forms@[j])@ == openings()[j],
            forall|j: int| 0 <= j < k ==> !occurs_at(url@, openings()[j], start as int),
        decreases forms.len() - k,
    {
        let form = &forms[k];
        if starts_at(url, form, start) {
            assert(start + form@.len() <= url.len());
            return Some(start + form.len());
        }
        k += 1;
    }
    None
}

/// Where the longest path that begins at `from` ends, if any does.
fn path_end(url: &Vec<char>, close: &Vec<char>, from: usize) -> (r: Option<usize>)
    requires
        close@ == ending(),
        from <= url@.len(),
    ensures
        match r {
            Some(to) => closes(url@, from as int, to as int) && forall|c: int|
                closes(url@, from as int, c) ==> c <= to,
            None => forall|c: int| !closes(url@, from as int, c),
        },
{
    proof {
        lemma_literals();
    }
    let mut stop: usize = from;
    while stop < url.len() && !is_blank(url[stop])
        invariant
            from <= stop <= url@.len(),
            forall|j: int| from <= j < stop ==> !blank(#[trigger] url@[j]),
        decreases url.len() - stop,
    {
        stop += 1;
    }
    assert forall|c: int| closes(url@, from as int, c) implies c + 4 <= stop by {
        lemma_occurs_at(url@, ending(), c);
        if stop < c + 4 {
            if stop < c {
                assert(url@.subrange(from as int, c)[stop - from] == url@[stop as int]);
            } else {
                assert(url@[c + (stop - c)] == ending()[stop - c]);
            }
        }
    }
    if stop - from < 5 {
        return None;
    }
    let mut to: usize = stop - 4;
    loop
        invariant
            close@ == ending(),
            from < to <= stop - 4,
            stop <= url@.len(),
            forall|j: int| from <= j < stop ==> !blank(#[trigger] url@[j]),
            forall|c: int| closes(url@, from as int, c) ==> c + 4 <= stop,
            forall|c: int| to < c <= stop - 4 ==> !occurs_at(url@, ending(), c),
        decreases to - from,
    {
        if starts_at(url, close, to) {
            assert(solid(url@.subrange(from as int, to as int)));
            return Some(to);
        }
        if to == from + 1 {
            return None;
        }
        to -= 1;
    }
}

/// The bounds of the path of `url`, if it has one.
fn path_bounds(url: &Vec<char>) -> (r: Option<(usize, usize)>)
    ensures
        match r {
            Some((from, to)) => from <= to <= url@.len() && path(url@) == Some(
                url@.subrange(from as int, to as int),
            ),
            None => path(url@) is None,
        },
{
    let forms = opening_forms();
    let close = to_chars(".git");
    let mut start: usize = 0;
    while start < url.len()
        invariant
            start <= url@.len(),
            close@ == ending(),
            forms@.len() == openings().len(),
            forall|k: int| 0 <= k < forms@.len() ==> (#[trigger] forms@[k])@ == openings()[k],
            forall|a: int, b: int, c: int| 0 <= a < start ==> !shaped(url@, a, b, c),
        decreases url.len() - start,
    {
        match opening_end(url, &forms, start) {
            Some(from) => {
                match path_end(url, &close, from) {
                    Some(to) => {
                        proof {
                            assert forall|a: int, b: int, c: int| #[trigger]
                                shaped(url@, a, b, c) implies start < a || (start == a && c
                                <= to) by {
                                if a == start {
                                    lemma_opens_once(url@, a, b, from as int);
                                }
                            }
                            lemma_path(url@, start as int, from as int, to as int);
                        }
                        return Some((from, to));
                    },
                    None => {
                        assert forall|b: int, c: int| !shaped(url@, start as int, b, c) by {
                            if shaped(url@, start as int, b, c) {
                                lemma_opens_once(url@, start as int, b, from as int);
                            }
                        }
                    },
                }
            },
            None => {},
        }
        start += 1;
    }
    proof {
        lemma_literals();
        assert forall|a: int, b: int, c: int| !captured(url@, a, b, c) by {
            if shaped(url@, a, b, c) {
                assert(a < url@.len());
            }
        }
    }
    None
}

/// The path of `url`, if it has one.
pub fn find_path(url: &str) -> (r: Option<String>)
    ensures
        match r {
            Some(p) => path(url@) == Some(p@),
            None => path(url@) is None,
        },
{
    let chars = to_chars(url);
    match path_bounds(&chars) {
        Some((from, to)) => Some(url.substring_char(from, to).to_owned()),
        None => None,
    }
}

/// The organization and the repository name of `path`: its first two segments
/// between slashes, if it holds a slash.
pub fn split_path(path: &str) -> (r: Option<(String, String)>)
    ensures
        match r {
            Some((org, name)) => owner_and_name(path@) == Some((org@, name@)),
            None => owner_and_name(path@) is None,
        },
{
    let chars = to_chars(path);
    let end = chars.len();
    let i = first_index(&chars, '/', 0, end);
    if i == end {
        return None;
    }
    let j = first_index(&chars, '/', i + 1, end);
    let org = path.substring_char(0, i).to_owned();
    let name = path.substring_char(i + 1, j).to_owned();
    Some((org, name))
}

/// The organization and the repository name that `url` names.
pub fn find_repo_tuple(url: &str) -> (r: Option<(String, String)>)
    ensures
        match r {
            Some((org, name)) => repo_tuple(url@) == Some((org@, name@)),
            None => repo_tuple(url@) is None,
        },
{
    match find_path(url) {
        Some(p) => split_path(p.as_str()),
        None => None,
    }
}

/// Every opening holds the domain, so a URL with a path holds it too.
pub proof fn lemma_path_has_domain(url: Seq<char>)
    requires
        path(url) is Some,
    ensures
        contains(url, domain()),
{
    let (a, b, c) = choose|a: int, b: int, c: int| captured(url, a, b, c);
    let k = choose|k: int|
        0 <= k < openings().len() && #[trigger] occurs_at(url, openings()[k], a) && b == a
            + openings()[k].len();
    lemma_literals();
    reveal_strlit("ssh://git@github.com:");
    reveal_strlit("ssh://git@github.com/");
    reveal_strlit("git@github.com:");
    reveal_strlit("git@github.com/");
    reveal_strlit("https://github.com/");
    reveal_strlit("http://github.com/");
    reveal_strlit("git://github.com/");
    reveal_strlit("ssh://github.com/");
    reveal_strlit("github.com");
    let form = openings()[k];
    let d = form.len() - 11;
    lemma_occurs_at(url, form, a);
    assert(form.subrange(d, d + 10) =~= domain());
    assert(url.subrange(a + d, a + d + 10) =~= domain()) by {
        assert forall|j: int| 0 <= j < 10 implies url.subrange(a + d, a + d + 10)[j]
            == domain()[j] by {
            assert(url[a + (d + j)] == form[d + j]);
            assert(form.subrange(d, d + 10)[j] == form[d + j]);
        }
    }
    assert(occurs_at(url, domain(), a + d));
}

/// Two stretches without a slash, with one slash between them, are the
/// organization and the repository name of what they make up.
pub proof fn lemma_owner_and_name(org: Seq<char>, name: Seq<char>)
    requires
        !org.contains('/'),
        !name.contains('/'),
    ensures
        owner_and_name(org + seq!['/'] + name) == Some((org, name)),
{
    let p = org + seq!['/'] + name;
    let cut = org.len() as int;
    let end = p.len() as int;
    assert forall|j: int| 0 <= j < cut implies #[trigger] p[j] != '/' by {
        assert(p[j] == org[j]);
        assert(org.contains(org[j]));
    }
    assert(p[cut] == '/');
    lemma_first_at_is(p, '/', 0, end, cut);
    assert forall|j: int| cut + 1 <= j < end implies #[trigger] p[j] != '/' by {
        assert(p[j] == name[j - cut - 1]);
        assert(name.contains(name[j - cut - 1]));
    }
    lemma_first_at_is(p, '/', cut + 1, end, end);
    assert(p.subrange(0, cut) =~= org);
    assert(p.subrange(cut + 1, end) =~= name);
}

/// A URL that begins with an opening and ends with the ending, with no blank
/// between the two, has what stands between them as its path.
pub proof fn lemma_whole_url(open: Seq<char>, p: Seq<char>)
    requires
        exists|k: int| 0 <= k < openings().len() && openings()[k] == open,
        p.len() > 0,
        solid(p),
    ensures
        path(open + p + ending()) == Some(p),
{
    reveal_strlit(".git");
    let url = open + p + ending();
    let from = open.len() as int;
    let to = from + p.len();
    let k = choose|k: int| 0 <= k < openings().len() && openings()[k] == open;
    assert(url.subrange(0, from) =~= open);
    assert(url.subrange(from, to) =~= p);
    assert(url.subrange(to, to + 4) =~= ending());
    assert(occurs_at(url, openings()[k], 0));
    assert(opens(url, 0, from));
    assert(closes(url, from, to));
    assert(captured(url, 0, from, to));
    lemma_path(url, 0, from, to);
}

/// The organization and the repository name that a URL names hold neither a
/// blank nor a slash.
pub proof fn lemma_names_are_plain(url: Seq<char>, org: Seq<char>, name: Seq<char>)
    requires
        repo_tuple(url) == Some((org, name)),
    ensures
        solid(org),
        solid(name),
        !org.contains('/'),
        !name.contains('/'),
{
    let (a, b, c) = choose|a: int, b: int, c: int| captured(url, a, b, c);
    let p = url.subrange(b, c);
    let end = p.len() as int;
    let i = first_at(p, '/', 0, end);
    lemma_first_at(p, '/', 0, end);
    let j = first_at(p, '/', i + 1, end);
    lemma_first_at(p, '/', i + 1, end);
    assert(org == p.subrange(0, i));
    assert(name == p.subrange(i + 1, j));
    assert forall|k: int| 0 <= k < org.len() implies !blank(#[trigger] org[k]) && org[k]
        != '/' by {
        assert(org[k] == p[k]);
    }
    assert forall|k: int| 0 <= k < name.len() implies !blank(#[trigger] name[k]) && name[k]
        != '/' by {
        assert(name[k] == p[i + 1 + k]);
    }
}

/// A URL made of an accepted opening, an organization, a slash, a repository
/// name and `.git` names that organization and that repository, whatever
/// characters the two are made of, as long as none is blank or a slash.
pub proof fn lemma_accepted_shapes(k: int, org: Seq<char>, name: Seq<char>)
    requires
        0 <= k < openings().len(),
        solid(org),
        solid(name),
        !org.contains('/'),
        !name.contains('/'),
    ensures
        repo_tuple(openings()[k] + org + seq!['/'] + name + ending()) == Some((org, name)),
        contains(openings()[k] + org + seq!['/'] + name + ending(), domain()),
{
    let p = org + seq!['/'] + name;
    let url = openings()[k] + org + seq!['/'] + name + ending();
    assert(solid(p)) by {
        assert forall|i: int| 0 <= i < p.len() implies !blank(#[trigger] p[i]) by {
            if i < org.len() {
                assert(p[i] == org[i]);
            } else if i > org.len() {
                assert(p[i] == name[i - org.len() - 1]);
            }
        }
    }
    assert(url =~= openings()[k] + p + ending());
    lemma_whole_url(openings()[k], p);
    lemma_path_has_domain(url);
    lemma_owner_and_name(org, name);
}

} // verus!
