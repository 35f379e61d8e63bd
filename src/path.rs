//! Album paths of the shape `g/<album id>/<album token>`, and the canonical
//! album URL built from them.
use vstd::prelude::*;

verus! {

/// The canonical album URLs all start with this prefix.
pub const GALLERY_PREFIX: &'static str = "https://exhentai.org/g/";

/// The first index at or after `i` (and below `end`) that holds no `/`, or `end`.
pub open spec fn skip_slashes(s: Seq<char>, i: int, end: int) -> int
    decreases end - i,
{
    if i >= end {
        end
    } else if s[i] != '/' {
        i
    } else {
        skip_slashes(s, i + 1, end)
    }
}

/// The end of `s[lo..j]` once the `/` characters at its end are dropped.
pub open spec fn back_slashes(s: Seq<char>, lo: int, j: int) -> int
    decreases j - lo,
{
    if j <= lo {
        lo
    } else if s[j - 1] != '/' {
        j
    } else {
        back_slashes(s, lo, j - 1)
    }
}

/// The first index at or after `i` (and below `end`) that holds a `/`, or `end`.
pub open spec fn next_slash(s: Seq<char>, i: int, end: int) -> int
    decreases end - i,
{
    if i >= end {
        end
    } else if s[i] == '/' {
        i
    } else {
        next_slash(s, i + 1, end)
    }
}

/// The album id and token of a path: `/` is trimmed from both ends, the rest
/// splits at `/` into exactly three segments, and the first is `g`.
/// `None` for any other shape.
pub open spec fn parse_path_spec(p: Seq<char>) -> Option<(Seq<char>, Seq<char>)> {
    let a = skip_slashes(p, 0, p.len() as int);
    let b = back_slashes(p, a, p.len() as int);
    let s1 = next_slash(p, a, b);
    let s2 = next_slash(p, s1 + 1, b);
    let s3 = next_slash(p, s2 + 1, b);
    if s1 < b && s2 < b && s3 == b && p.subrange(a, s1) == seq!['g'] {
        Some((p.subrange(s1 + 1, s2), p.subrange(s2 + 1, b)))
    } else {
        None
    }
}

/// The canonical URL of the album with this id and token.
pub open spec fn album_url_spec(id: Seq<char>, token: Seq<char>) -> Seq<char> {
    GALLERY_PREFIX@ + id + seq!['/'] + token
}

fn skip_slashes_exec(s: &str, n: usize) -> (r: usize)
    requires
        n == s@.len(),
    ensures
        r == skip_slashes(s@, 0, n as int),
        r <= n,
{
    let mut i: usize = 0;
    while i < n && s.get_char(i) == '/'
        invariant
            n == s@.len(),
            i <= n,
            skip_slashes(s@, i as int, n as int) == skip_slashes(s@, 0, n as int),
        decreases n - i,
    {
        i = i + 1;
    }
    i
}

fn back_slashes_exec(s: &str, lo: usize, n: usize) -> (r: usize)
    requires
        n == s@.len(),
        lo <= n,
    ensures
        r == back_slashes(s@, lo as int, n as int),
        lo <= r <= n,
{
    let mut j: usize = n;
    while j > lo && s.get_char(j - 1) == '/'
        invariant
            n == s@.len(),
            lo <= j <= n,
            back_slashes(s@, lo as int, j as int) == back_slashes(s@, lo as int, n as int),
        decreases j,
    {
        j = j - 1;
    }
    j
}

fn next_slash_exec(s: &str, i: usize, end: usize) -> (r: usize)
    requires
        end <= s@.len(),
    ensures
        r == next_slash(s@, i as int, end as int),
        r == end || (i <= r < end),
{
    if i >= end {
        return end;
    }
    let mut j: usize = i;
    while j < end && s.get_char(j) != '/'
        invariant
            end <= s@.len(),
            i <= j <= end,
            next_slash(s@, j as int, end as int) == next_slash(s@, i as int, end as int),
        decreases end - j,
    {
        j = j + 1;
    }
    j
}

/// Splits an album path into its id and token.
pub fn parse_path(path: &str) -> (r: Option<(String, String)>)
    ensures
        match r {
            Some((id, token)) => parse_path_spec(path@) == Some((id@, token@)),
            None => parse_path_spec(path@) is None,
        },
{
    let n = path.unicode_len();
    let a = skip_slashes_exec(path, n);
    let b = back_slashes_exec(path, a, n);
    let s1 = next_slash_exec(path, a, b);
    if s1 >= b {
        return None;
    }
    let s2 = next_slash_exec(path, s1 + 1, b);
    if s2 >= b {
        return None;
    }
    let s3 = next_slash_exec(path, s2 + 1, b);
    if s3 < b {
        return None;
    }
    if s1 - a != 1 || path.get_char(a) != 'g' {
        proof {
            let head = path@.subrange(a as int, s1 as int);
            if s1 - a == 1 {
                assert(head[0] == path@[a as int]);
                assert(head != seq!['g']);
            } else {
                assert(head.len() != seq!['g'].len());
            }
        }
        return None;
    }
    assert(path@.subrange(a as int, s1 as int) =~= seq!['g']);
    let id = String::from_str(path.substring_char(s1 + 1, s2));
    let token = String::from_str(path.substring_char(s2 + 1, b));
    Some((id, token))
}

/// Builds the canonical URL of an album from its id and token.
pub fn album_url(id: &str, token: &str) -> (r: String)
    ensures
        r@ == album_url_spec(id@, token@),
{
    let mut url = String::from_str(GALLERY_PREFIX);
    url.append(id);
    url.append("/");
    url.append(token);
    proof {
        reveal_strlit("/");
    }
    url
}

} // verus!
