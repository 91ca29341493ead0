//! The display title of a post, taken from the first line of its source.
use vstd::prelude::*;
use vstd::string::*;

verus! {

/// Unicode `White_Space`: the characters that `str::trim` removes.
pub open spec fn is_white_space(c: char) -> bool {
    let u = c as u32;
    (0x09 <= u && u <= 0x0D) || u == 0x20 || u == 0x85 || u == 0xA0 || u == 0x1680 || (0x2000
        <= u && u <= 0x200A) || u == 0x2028 || u == 0x2029 || u == 0x202F || u == 0x205F || u
        == 0x3000
}

/// Number of `#` characters that open `s`.
pub open spec fn leading_hashes(s: Seq<char>) -> nat
    decreases s.len(),
{
    if s.len() > 0 && s[0] == '#' {
        1 + leading_hashes(s.drop_first())
    } else {
        0
    }
}

/// Number of white-space characters that open `s`.
pub open spec fn leading_white(s: Seq<char>) -> nat
    decreases s.len(),
{
    if s.len() > 0 && is_white_space(s[0]) {
        1 + leading_white(s.drop_first())
    } else {
        0
    }
}

/// Number of white-space characters that close `s`.
pub open spec fn trailing_white(s: Seq<char>) -> nat
    decreases s.len(),
{
    if s.len() > 0 && is_white_space(s.last()) {
        1 + trailing_white(s.drop_last())
    } else {
        0
    }
}

/// `s` without the white space at either end.
pub open spec fn trim(s: Seq<char>) -> Seq<char> {
    let t = s.skip(leading_white(s) as int);
    t.take(t.len() - trailing_white(t))
}

/// The title carried by a first line: every leading `#` removed, then the
/// white space around the rest.
pub open spec fn title_of(line: Seq<char>) -> Seq<char> {
    trim(line.skip(leading_hashes(line) as int))
}

proof fn lemma_leading_hashes(s: Seq<char>, i: int)
    requires
        0 <= i <= s.len(),
        forall|j: int| 0 <= j < i ==> s[j] == '#',
        i == s.len() || s[i] != '#',
    ensures
        leading_hashes(s) == i,
    decreases i,
{
    if i > 0 {
        let t = s.drop_first();
        assert forall|j: int| 0 <= j < i - 1 implies t[j] == '#' by {
            assert(s[j + 1] == '#');
        }
        lemma_leading_hashes(t, i - 1);
    }
}

proof fn lemma_leading_white(s: Seq<char>, i: int)
    requires
        0 <= i <= s.len(),
        forall|j: int| 0 <= j < i ==> is_white_space(#[trigger] s[j]),
        i == s.len() || !is_white_space(s[i]),
    ensures
        leading_white(s) == i,
    decreases i,
{
    if i > 0 {
        let t = s.drop_first();
        assert forall|j: int| 0 <= j < i - 1 implies is_white_space(#[trigger] t[j]) by {
            assert(is_white_space(s[j + 1]));
        }
        lemma_leading_white(t, i - 1);
    }
}

proof fn lemma_trailing_white(s: Seq<char>, k: int)
    requires
        0 <= k <= s.len(),
        forall|j: int| k <= j < s.len() ==> is_white_space(#[trigger] s[j]),
        k == 0 || !is_white_space(s[k - 1]),
    ensures
        trailing_white(s) == s.len() - k,
    decreases s.len() - k,
{
    if k < s.len() {
        let t = s.drop_last();
        assert forall|j: int| k <= j < t.len() implies is_white_space(#[trigger] t[j]) by {
            assert(is_white_space(s[j]));
        }
        lemma_trailing_white(t, k);
    }
}

/// However many `#` open a first line, the title is the rest of the line
/// trimmed, provided the rest does not itself begin with `#`.
pub proof fn lemma_title_ignores_heading_level(k: nat, text: Seq<char>)
    requires
        text.len() == 0 || text[0] != '#',
    ensures
        title_of(Seq::new(k, |_j: int| '#') + text) == trim(text),
{
    let line = Seq::new(k, |_j: int| '#') + text;
    assert forall|j: int| 0 <= j < k implies line[j] == '#' by {}
    lemma_leading_hashes(line, k as int);
    assert(line.skip(k as int) =~= text);
}

/// Whether `c` is white space in the sense of Unicode `White_Space`.
pub fn is_white_space_char(c: char) -> (r: bool)
    ensures
        r == is_white_space(c),
{
    let u = c as u32;
    (0x09 <= u && u <= 0x0D) || u == 0x20 || u == 0x85 || u == 0xA0 || u == 0x1680 || (0x2000
        <= u && u <= 0x200A) || u == 0x2028 || u == 0x2029 || u == 0x202F || u == 0x205F || u
        == 0x3000
}

/// The title of a post from the first line of its source: all leading `#`
/// characters go, then the white space at both ends (a line break included).
pub fn title_string(first_line: &str) -> (title: String)
    ensures
        title@ == title_of(first_line@),
{
    let ghost s = first_line@;
    let n = first_line.unicode_len();
    let mut i: usize = 0;
    while i < n
        invariant
            n == s.len(),
            s == first_line@,
            i <= n,
            forall|j: int| 0 <= j < i ==> s[j] == '#',
        ensures
            i == n || s[i as int] != '#',
        decreases n - i,
    {
        if first_line.get_char(i) != '#' {
            break;
        }
        i = i + 1;
    }
    proof {
        lemma_leading_hashes(s, i as int);
    }
    let ghost rest = s.skip(i as int);
    let mut lo: usize = i;
    while lo < n
        invariant
            n == s.len(),
            s == first_line@,
            i <= lo <= n,
            rest == s.skip(i as int),
            forall|j: int| i <= j < lo ==> is_white_space(#[trigger] s[j]),
        ensures
            lo == n || !is_white_space(s[lo as int]),
        decreases n - lo,
    {
        if !is_white_space_char(first_line.get_char(lo)) {
            break;
        }
        lo = lo + 1;
    }
    proof {
        assert forall|j: int| 0 <= j < lo - i implies is_white_space(#[trigger] rest[j]) by {
            assert(rest[j] == s[j + i]);
        }
        lemma_leading_white(rest, lo - i);
    }
    let ghost t = rest.skip(lo - i);
    let mut hi: usize = n;
    while hi > lo
        invariant
            n == s.len(),
            s == first_line@,
            lo <= hi <= n,
            t == rest.skip(lo - i),
            forall|j: int| hi <= j < n ==> is_white_space(#[trigger] s[j]),
        ensures
            hi == lo || !is_white_space(s[hi - 1]),
        decreases hi,
    {
        if !is_white_space_char(first_line.get_char(hi - 1)) {
            break;
        }
        hi = hi - 1;
    }
    proof {
        assert forall|j: int| hi - lo <= j < t.len() implies is_white_space(#[trigger] t[j]) by {
            assert(t[j] == s[j + lo]);
        }
        if hi > lo {
            assert(t[hi - lo - 1] == s[hi - 1]);
        }
        lemma_trailing_white(t, hi - lo);
        assert(t.take(hi - lo) =~= s.subrange(lo as int, hi as int));
    }
    String::from_str(first_line.substring_char(lo, hi))
}

} // verus!
