use vstd::prelude::*;

verus! {

/// The index of the last `/` among the first `end` characters of `s`, or -1.
pub open spec fn last_slash_before(s: Seq<char>, end: int) -> int
    decreases end,
{
    if end <= 0 || end > s.len() {
        -1
    } else if s[end - 1] == '/' {
        end - 1
    } else {
        last_slash_before(s, end - 1)
    }
}

/// The final `/`-separated segment of `s`: everything after its last `/`, or
/// all of `s` where it holds none.
pub open spec fn last_segment(s: Seq<char>) -> Seq<char> {
    s.subrange(last_slash_before(s, s.len() as int) + 1, s.len() as int)
}

/// `name` placed inside the directory `dir`, with one `/` between them unless
/// `dir` is empty or already ends with one.
pub open spec fn joined(dir: Seq<char>, name: Seq<char>) -> Seq<char> {
    if dir.len() == 0 {
        name
    } else if dir.last() == '/' {
        dir + name
    } else {
        dir + seq!['/'] + name
    }
}

proof fn lemma_last_slash_bounds(s: Seq<char>, end: int)
    requires
        0 <= end <= s.len(),
    ensures
        -1 <= last_slash_before(s, end) < end,
        last_slash_before(s, end) >= 0 ==> s[last_slash_before(s, end)] == '/',
        forall|k: int| last_slash_before(s, end) < k < end ==> s[k] != '/',
    decreases end,
{
    if end > 0 && s[end - 1] != '/' {
        lemma_last_slash_bounds(s, end - 1);
    }
}

/// The name of the file that a URL points at: its final path segment.
pub fn file_name_from_url(url: &str) -> (r: String)
    ensures
        r@ == last_segment(url@),
        !r@.contains('/'),
{
    let n = url.unicode_len();
    proof {
        lemma_last_slash_bounds(url@, n as int);
    }
    let mut end = n;
    while end > 0
        invariant
            end <= n,
            n == url@.len(),
            last_slash_before(url@, end as int) == last_slash_before(url@, n as int),
        ensures
            end <= n,
            last_slash_before(url@, end as int) == last_slash_before(url@, n as int),
            end == 0 || url@[end - 1] == '/',
        decreases end,
    {
        if url.get_char(end - 1) == '/' {
            break;
        }
        end = end - 1;
    }
    let name = url.substring_char(end, n);
    let r = String::from_str(name);
    proof {
        if end > 0 {
            assert(last_slash_before(url@, end as int) == end - 1);
        }
        assert(r@ =~= last_segment(url@));
        assert forall|k: int| 0 <= k < r@.len() implies r@[k] != '/' by {
            assert(r@[k] == url@[end + k]);
        }
    }
    r
}

/// Appends `name` to `dir` as a path, in the way a relative file name without
/// a separator is joined to a directory.
pub fn join_path(dir: &str, name: &str) -> (r: String)
    ensures
        r@ == joined(dir@, name@),
{
    proof {
        reveal_strlit("/");
    }
    let n = dir.unicode_len();
    let mut out = String::from_str(dir);
    if n > 0 && dir.get_char(n - 1) != '/' {
        out.append("/");
    }
    out.append(name);
    out
}

} // verus!
