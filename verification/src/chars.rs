//! Character sequences: where a pattern occurs in a text, which characters
//! are blank, and the first index at which a character stands.

use vstd::prelude::*;

verus! {

/// `pat` stands in `s` at index `i`.
pub open spec fn occurs_at(s: Seq<char>, pat: Seq<char>, i: int) -> bool {
    &&& 0 <= i
    &&& i + pat.len() <= s.len()
    &&& s.subrange(i, i + pat.len()) == pat
}

/// `pat` stands somewhere in `s`.
pub open spec fn contains(s: Seq<char>, pat: Seq<char>) -> bool {
    exists|i: int| occurs_at(s, pat, i)
}

/// The characters with the Unicode property `White_Space`.
pub open spec fn blank(c: char) -> bool {
    let n = c as u32;
    ||| 0x09 <= n <= 0x0D
    ||| n == 0x20
    ||| n == 0x85
    ||| n == 0xA0
    ||| n == 0x1680
    ||| 0x2000 <= n <= 0x200A
    ||| n == 0x2028
    ||| n == 0x2029
    ||| n == 0x202F
    ||| n == 0x205F
    ||| n == 0x3000
}

/// No character of `s` is blank.
pub open spec fn solid(s: Seq<char>) -> bool {
    forall|i: int| 0 <= i < s.len() ==> !blank(#[trigger] s[i])
}

/// The least index in `from..to` at which `s` holds `c`, or `to` where it
/// holds none there.
pub open spec fn first_at(s: Seq<char>, c: char, from: int, to: int) -> int
    decreases to - from,
{
    if from >= to {
        to
    } else if s[from] == c {
        from
    } else {
        first_at(s, c, from + 1, to)
    }
}

/// `first_at` lies in `from..=to`, `c` does not stand before it, and it stands
/// there unless `first_at` is `to`.
pub proof fn lemma_first_at(s: Seq<char>, c: char, from: int, to: int)
    requires
        from <= to,
    ensures
        from <= first_at(s, c, from, to) <= to,
        forall|j: int| from <= j < first_at(s, c, from, to) ==> #[trigger] s[j] != c,
        first_at(s, c, from, to) < to ==> s[first_at(s, c, from, to)] == c,
    decreases to - from,
{
    if from < to && s[from] != c {
        lemma_first_at(s, c, from + 1, to);
    }
}

/// An index before which `c` does not stand, and at which it stands unless the
/// index is `to`, is `first_at`.
pub proof fn lemma_first_at_is(s: Seq<char>, c: char, from: int, to: int, i: int)
    requires
        from <= i <= to,
        forall|j: int| from <= j < i ==> #[trigger] s[j] != c,
        i < to ==> s[i] == c,
    ensures
        first_at(s, c, from, to) == i,
    decreases to - from,
{
    if from < i {
        assert(s[from] != c);
        lemma_first_at_is(s, c, from + 1, to, i);
    }
}

/// Where `pat` stands in `s` at `i`, the two agree character by character.
pub proof fn lemma_occurs_at(s: Seq<char>, pat: Seq<char>, i: int)
    requires
        occurs_at(s, pat, i),
    ensures
        forall|j: int| 0 <= j < pat.len() ==> s[i + j] == #[trigger] pat[j],
{
    assert forall|j: int| 0 <= j < pat.len() implies s[i + j] == #[trigger] pat[j] by {
        assert(s.subrange(i, i + pat.len())[j] == s[i + j]);
    }
}

/// The characters of `s`, in order.
pub fn to_chars(s: &str) -> (v: Vec<char>)
    ensures
        v@ == s@,
{
    let mut v: Vec<char> = Vec::new();
    for c in it: s.chars()
        invariant
            v@ == it.seq().take(it.index()),
            it.seq() == s@,
    {
        v.push(c);
    }
    v
}

/// Whether `c` is blank.
pub fn is_blank(c: char) -> (b: bool)
    ensures
        b == blank(c),
{
    let n: u32 = c as u32;
    (0x09 <= n && n <= 0x0D) || n == 0x20 || n == 0x85 || n == 0xA0 || n == 0x1680 || (0x2000 <= n
        && n <= 0x200A) || n == 0x2028 || n == 0x2029 || n == 0x202F || n == 0x205F || n == 0x3000
}

/// The least index in `from..to` at which `s` holds `c`, or `to` where it
/// holds none there.
pub fn first_index(s: &Vec<char>, c: char, from: usize, to: usize) -> (i: usize)
    requires
        from <= to <= s@.len(),
    ensures
        i == first_at(s@, c, from as int, to as int),
        from <= i <= to,
{
    let mut i: usize = from;
    while i < to && s[i] != c
        invariant
            from <= i <= to <= s@.len(),
            forall|k: int| from <= k < i ==> #[trigger] s@[k] != c,
        decreases to - i,
    {
        i += 1;
    }
    proof {
        lemma_first_at_is(s@, c, from as int, to as int, i as int);
    }
    i
}

/// Whether `pat` stands in `s` at index `i`.
pub fn starts_at(s: &Vec<char>, pat: &Vec<char>, i: usize) -> (b: bool)
    ensures
        b == occurs_at(s@, pat@, i as int),
{
    if i > s.len() || pat.len() > s.len() - i {
        return false;
    }
    let mut k: usize = 0;
    while k < pat.len()
        invariant
            i + pat.len() <= s.len(),
            k <= pat.len(),
            forall|j: int| 0 <= j < k ==> s@[i + j] == pat@[j],
        decreases pat.len() - k,
    {
        if s[i + k] != pat[k] {
            assert(s@.subrange(i as int, i + pat.len())[k as int] == s@[i + k]);
            return false;
        }
        k += 1;
    }
    assert(s@.subrange(i as int, i + pat.len()) =~= pat@);
    true
}

/// Whether `pat` stands somewhere in `s`.
pub fn has(s: &Vec<char>, pat: &Vec<char>) -> (b: bool)
    ensures
        b == contains(s@, pat@),
{
    if pat.len() > s.len() {
        return false;
    }
    let last: usize = s.len() - pat.len();
    let mut i: usize = 0;
    loop
        invariant
            last == s.len() - pat.len(),
            i <= last,
            forall|j: int| 0 <= j < i ==> !occurs_at(s@, pat@, j),
        decreases last - i,
    {
        if starts_at(s, pat, i) {
            return true;
        }
        if i == last {
            return false;
        }
        i += 1;
    }
}

} // verus!
