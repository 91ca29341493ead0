//! The homepage's link to the newest post. The homepage holds one marker
//! region: a line that runs from `-->` to `<!--END`; patching replaces the
//! first such region with a fresh link.
use vstd::prelude::*;
use vstd::string::*;
use crate::discover::{slug_of, stem_of};
use crate::title::{title_of, title_string};

verus! {

/// The pattern that finds the marker region.
pub const MARKER_PATTERN: &'static str = "-->(.*)<!--END";

/// What the link starts with, up to the post's slug.
pub const ANCHOR_HEAD: &'static str = "-->&nbsp;<a href=\"https://blog.danyaal.xyz/";

/// What stands between the slug and the title.
pub const ANCHOR_MIDDLE: &'static str = ".html\" class=\"blogtitle hover:underline\">";

/// What closes the link and the marker region.
pub const ANCHOR_TAIL: &'static str = "</a><!--END";

/// The text that opens a marker region.
pub open spec fn region_open() -> Seq<char> {
    seq!['-', '-', '>']
}

/// The text that closes a marker region.
pub open spec fn region_close() -> Seq<char> {
    seq!['<', '!', '-', '-', 'E', 'N', 'D']
}

/// `t` holds `-->` at `i` and `<!--END` at `j`, with no line break between.
pub open spec fn marker_at(t: Seq<char>, i: int, j: int) -> bool {
    &&& 0 <= i
    &&& i + 3 <= j
    &&& j + 7 <= t.len()
    &&& t.subrange(i, i + 3) == region_open()
    &&& t.subrange(j, j + 7) == region_close()
    &&& forall|k: int| i + 3 <= k < j ==> t[k] != '\n'
}

/// The region that the pattern matches: it starts as early as any region,
/// and of those that start there it is the longest.
pub open spec fn is_first_region(t: Seq<char>, i: int, j: int) -> bool {
    &&& marker_at(t, i, j)
    &&& forall|i2: int, j2: int| #[trigger] marker_at(t, i2, j2) ==> i <= i2
    &&& forall|j2: int| #[trigger] marker_at(t, i, j2) ==> j2 <= j
}

/// `t` with its first marker region replaced by `rep`; `t` itself where it
/// holds no region.
pub open spec fn replace_first_region(t: Seq<char>, rep: Seq<char>) -> Seq<char> {
    if exists|i: int, j: int| marker_at(t, i, j) {
        let (i, j) = choose|i: int, j: int| is_first_region(t, i, j);
        t.take(i) + rep + t.skip(j + 7)
    } else {
        t
    }
}

/// The link to the post with this slug and title, as a marker region.
pub open spec fn anchor_of(slug: Seq<char>, title: Seq<char>) -> Seq<char> {
    ANCHOR_HEAD@ + slug + ANCHOR_MIDDLE@ + title + ANCHOR_TAIL@
}

/// The homepage patched to link to the post with this slug and title.
pub open spec fn patched(doc: Seq<char>, slug: Seq<char>, title: Seq<char>) -> Seq<char> {
    replace_first_region(doc, anchor_of(slug, title))
}

/// Relies on `regex::Regex::new`, which accepts this pattern, and on
/// `Regex::replace` with `regex::NoExpand`: the leftmost-first match is
/// replaced by `rep` as it stands, `.` matches any character but `\n` and
/// `.*` is greedy, and without a match the text comes back unchanged.
#[verifier::external_body]
fn regex_replace_first(pattern: &str, text: &str, rep: &str) -> (r: String)
    requires
        pattern@ == MARKER_PATTERN@,
    ensures
        r@ == replace_first_region(text@, rep@),
{
    regex::Regex::new(pattern).unwrap().replace(text, regex::NoExpand(rep)).into_owned()
}

/// The link to the post with this slug and title, as a marker region.
pub fn anchor_fragment(slug: &str, title: &str) -> (r: String)
    ensures
        r@ == anchor_of(slug@, title@),
{
    let mut r = String::from_str(ANCHOR_HEAD);
    r.append(slug);
    r.append(ANCHOR_MIDDLE);
    r.append(title);
    r.append(ANCHOR_TAIL);
    r
}

/// The homepage with its first marker region replaced by the link to the
/// post with this slug and title; unchanged where it holds no region.
pub fn patch_homepage(doc: &str, slug: &str, title: &str) -> (r: String)
    ensures
        r@ == patched(doc@, slug@, title@),
{
    let fragment = anchor_fragment(slug, title);
    regex_replace_first(MARKER_PATTERN, doc, fragment.as_str())
}

/// The homepage patched to link to the newest post, given that post's file
/// name and the first line of its source.
pub fn update_homepage(doc: &str, file_name: &str, first_line: &str) -> (r: String)
    ensures
        r@ == patched(doc@, stem_of(file_name@), title_of(first_line@)),
{
    let slug = slug_of(file_name);
    let title = title_string(first_line);
    patch_homepage(doc, slug.as_str(), title.as_str())
}

/// Where the homepage holds exactly one marker region, patching replaces
/// that region by the link and leaves every other character as it was.
pub proof fn lemma_patch_single_region(
    doc: Seq<char>,
    i: int,
    j: int,
    slug: Seq<char>,
    title: Seq<char>,
)
    requires
        marker_at(doc, i, j),
        forall|i2: int, j2: int| #[trigger] marker_at(doc, i2, j2) ==> i2 == i && j2 == j,
    ensures
        patched(doc, slug, title) == doc.take(i) + anchor_of(slug, title) + doc.skip(j + 7),
{
    assert(is_first_region(doc, i, j));
    let (i1, j1) = choose|i1: int, j1: int| is_first_region(doc, i1, j1);
    assert(marker_at(doc, i1, j1));
}

/// Where the homepage holds no marker region, patching leaves it unchanged.
pub proof fn lemma_patch_no_region(doc: Seq<char>, slug: Seq<char>, title: Seq<char>)
    requires
        forall|i: int, j: int| !marker_at(doc, i, j),
    ensures
        patched(doc, slug, title) == doc,
{
}

} // verus!
