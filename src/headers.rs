use vstd::prelude::*;

use crate::decimal::{append_decimal, decimal, parse_u64, parse_u64_in, parse_u64_spec};

verus! {

/// The index of the first `/` in `s` at or after `from`, or `s.len()` if there is none.
pub open spec fn next_slash(s: Seq<char>, from: int) -> int
    decreases s.len() - from,
{
    if from < 0 || from >= s.len() {
        s.len() as int
    } else if s[from] == '/' {
        from
    } else {
        next_slash(s, from + 1)
    }
}

/// The total length that a `Content-Range` value states: the text between its
/// first `/` and the next `/` (or its end), read as a decimal number. In
/// `bytes 0-0/1234` that is 1234.
pub open spec fn content_range_total(v: Seq<char>) -> Option<u64> {
    let first = next_slash(v, 0);
    if first >= v.len() {
        None
    } else {
        parse_u64_spec(v.subrange(first + 1, next_slash(v, first + 1)))
    }
}

/// The length that a `Content-Length` value states.
pub open spec fn content_length_value(v: Seq<char>) -> Option<u64> {
    parse_u64_spec(v)
}

/// The text of a `Range` header value: `bytes=<start>-`, followed by the last
/// byte's index where the range is closed.
pub open spec fn byte_range_text(start: u64, end: Option<u64>) -> Seq<char> {
    let open = seq!['b', 'y', 't', 'e', 's', '='] + decimal(start as nat) + seq!['-'];
    match end {
        Some(e) => open + decimal(e as nat),
        None => open,
    }
}

proof fn lemma_next_slash_bounds(s: Seq<char>, from: int)
    requires
        0 <= from <= s.len(),
    ensures
        from <= next_slash(s, from) <= s.len(),
        next_slash(s, from) < s.len() ==> s[next_slash(s, from)] == '/',
    decreases s.len() - from,
{
    if from < s.len() && s[from] != '/' {
        lemma_next_slash_bounds(s, from + 1);
    }
}

/// Finds the first `/` in `s` at or after `from`.
fn find_slash(s: &str, from: usize) -> (r: usize)
    requires
        from <= s@.len(),
    ensures
        r == next_slash(s@, from as int),
        from <= r <= s@.len(),
{
    proof {
        lemma_next_slash_bounds(s@, from as int);
    }
    let n = s.unicode_len();
    let mut i = from;
    while i < n
        invariant
            from <= i <= n,
            n == s@.len(),
            next_slash(s@, i as int) == next_slash(s@, from as int),
        decreases n - i,
    {
        if s.get_char(i) == '/' {
            return i;
        }
        i = i + 1;
    }
    i
}

/// Reads the total size from a `Content-Range` value such as `bytes 0-0/1234`:
/// the part after the first `/`, up to any further `/`, as a decimal number.
pub fn extract_size_from_content_range(value: &str) -> (r: Option<u64>)
    ensures
        r == content_range_total(value@),
{
    let n = value.unicode_len();
    let first = find_slash(value, 0);
    if first == n {
        return None;
    }
    let second = find_slash(value, first + 1);
    parse_u64_in(value, first + 1, second)
}

/// Reads the size from a `Content-Length` value.
pub fn extract_size_from_content_length(value: &str) -> (r: Option<u64>)
    ensures
        r == content_length_value(value@),
{
    parse_u64(value)
}

/// Builds a `Range` header value: `bytes=<start>-`, or `bytes=<start>-<end>`
/// for a closed range.
pub fn byte_range(start: u64, end: Option<u64>) -> (r: String)
    ensures
        r@ == byte_range_text(start, end),
{
    proof {
        reveal_strlit("bytes=");
        reveal_strlit("-");
    }
    let mut out = String::from_str("bytes=");
    append_decimal(&mut out, start);
    out.append("-");
    match end {
        Some(e) => {
            append_decimal(&mut out, e);
        },
        None => {},
    }
    assert(out@ =~= byte_range_text(start, end));
    out
}

} // verus!
