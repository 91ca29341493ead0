//! Choosing files in the posts directory: the markdown sources, and the
//! entry changed last.
use vstd::prelude::*;
use vstd::string::*;

verus! {

/// What a listing of the posts directory says of one entry.
pub struct FileEntry {
    /// The entry's file name, without its directory.
    pub name: String,
    /// Whether the entry is a regular file.
    pub is_file: bool,
    /// Time of the last change, in nanoseconds since the Unix epoch; `None`
    /// where the entry's metadata could not be read.
    pub modified: Option<u128>,
}

/// Whether the name has the extension `md`: it ends in `.md` and something
/// stands before that dot.
pub open spec fn is_markdown_name(n: Seq<char>) -> bool {
    n.len() > 3 && n[n.len() - 3] == '.' && n[n.len() - 2] == 'm' && n[n.len() - 1] == 'd'
}

/// The views of a sequence of strings.
pub open spec fn views(v: Seq<String>) -> Seq<Seq<char>> {
    Seq::new(v.len(), |k: int| v[k]@)
}

/// The markdown names among `names`, in their order.
pub open spec fn markdown_only(names: Seq<Seq<char>>) -> Seq<Seq<char>>
    decreases names.len(),
{
    if names.len() == 0 {
        Seq::empty()
    } else {
        let rest = markdown_only(names.drop_last());
        if is_markdown_name(names.last()) {
            rest.push(names.last())
        } else {
            rest
        }
    }
}

/// Index of the last `.` in `n`, or -1.
pub open spec fn last_dot(n: Seq<char>) -> int
    decreases n.len(),
{
    if n.len() == 0 {
        -1
    } else if n.last() == '.' {
        n.len() - 1
    } else {
        last_dot(n.drop_last())
    }
}

/// The name without its extension: what stands before the last `.`, where
/// that dot is not the first character; else the whole name.
pub open spec fn stem_of(n: Seq<char>) -> Seq<char> {
    if last_dot(n) > 0 {
        n.take(last_dot(n))
    } else {
        n
    }
}

/// An entry that takes part in the choice of the newest file.
pub open spec fn is_candidate(e: FileEntry) -> bool {
    e.is_file && e.modified is Some
}

/// `k` is the newest candidate, and the last of them where several share
/// the newest time.
pub open spec fn is_newest(entries: Seq<FileEntry>, k: int) -> bool {
    &&& 0 <= k < entries.len()
    &&& is_candidate(entries[k])
    &&& forall|m: int|
        0 <= m < entries.len() && is_candidate(#[trigger] entries[m]) ==> entries[m].modified->0
            <= entries[k].modified->0
    &&& forall|m: int|
        k < m < entries.len() && is_candidate(#[trigger] entries[m]) ==> entries[m].modified->0
            < entries[k].modified->0
}

/// Whether `name` has the extension `md`.
pub fn is_markdown_file_name(name: &str) -> (r: bool)
    ensures
        r == is_markdown_name(name@),
{
    let n = name.unicode_len();
    n > 3 && name.get_char(n - 3) == '.' && name.get_char(n - 2) == 'm' && name.get_char(n - 1)
        == 'd'
}

/// The names of the markdown sources among the listed names, in listing
/// order.
pub fn get_md_paths(names: &Vec<String>) -> (r: Vec<String>)
    ensures
        views(r@) == markdown_only(views(names@)),
{
    let mut r: Vec<String> = Vec::new();
    let mut i: usize = 0;
    while i < names.len()
        invariant
            i <= names.len(),
            views(r@) == markdown_only(views(names@).take(i as int)),
        decreases names.len() - i,
    {
        let ghost before = views(names@).take(i as int);
        let ghost after = views(names@).take(i + 1);
        assert(after.drop_last() =~= before);
        assert(after.last() == names@[i as int]@);
        if is_markdown_file_name(names[i].as_str()) {
            let ghost old_r = r@;
            r.push(names[i].clone());
            assert(views(r@) =~= views(old_r).push(names@[i as int]@));
        }
        i = i + 1;
    }
    assert(views(names@).take(names.len() as int) =~= views(names@));
    r
}

proof fn lemma_last_dot(n: Seq<char>, k: int)
    requires
        -1 <= k < n.len(),
        k == -1 || n[k] == '.',
        forall|j: int| k < j < n.len() ==> n[j] != '.',
    ensures
        last_dot(n) == k,
    decreases n.len(),
{
    if n.len() > 0 && n.last() != '.' {
        lemma_last_dot(n.drop_last(), k);
    }
}

/// The name without its extension (`hello-world.md` gives `hello-world`).
pub fn slug_of(name: &str) -> (r: String)
    ensures
        r@ == stem_of(name@),
{
    let n = name.unicode_len();
    let mut k: usize = n;
    while k > 0
        invariant
            k <= n,
            n == name@.len(),
            forall|j: int| k <= j < n ==> name@[j] != '.',
        ensures
            k == 0 || name@[k - 1] == '.',
        decreases k,
    {
        if name.get_char(k - 1) == '.' {
            break;
        }
        k = k - 1;
    }
    proof {
        lemma_last_dot(name@, k - 1);
    }
    if k > 1 {
        String::from_str(name.substring_char(0, k - 1))
    } else {
        proof {
            assert(name@.subrange(0, n as int) =~= name@);
        }
        String::from_str(name)
    }
}

/// The newest regular file among the entries whose metadata could be read;
/// where several share the newest time, the last of them in listing order.
pub fn most_recent(entries: &Vec<FileEntry>) -> (r: Option<usize>)
    ensures
        r is None <==> forall|k: int| 0 <= k < entries@.len() ==> !is_candidate(#[trigger] entries@[k]),
        r matches Some(k) ==> is_newest(entries@, k as int),
{
    let mut best: Option<usize> = None;
    let mut i: usize = 0;
    while i < entries.len()
        invariant
            i <= entries.len(),
            best is None <==> forall|k: int| 0 <= k < i ==> !is_candidate(#[trigger] entries@[k]),
            best matches Some(b) ==> is_newest(entries@.take(i as int), b as int),
        decreases entries.len() - i,
    {
        let e = &entries[i];
        let ghost seen = entries@.take(i as int);
        let ghost now = entries@.take(i + 1);
        assert(forall|m: int| 0 <= m < i ==> now[m] == seen[m]);
        if e.is_file {
            match e.modified {
                Some(t) => {
                    let replace = match best {
                        None => true,
                        Some(b) => match entries[b].modified {
                            Some(tb) => t >= tb,
                            None => true,
                        },
                    };
                    if replace {
                        best = Some(i);
                    }
                },
                None => {},
            }
        }
        i = i + 1;
    }
    assert(entries@.take(entries.len() as int) =~= entries@);
    best
}

} // verus!
