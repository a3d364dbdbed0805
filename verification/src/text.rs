//! Small verified string helpers: decimal rendering of integers,
//! character-based truncation, and word-boundary shortening of long
//! search queries.

use vstd::prelude::*;

verus! {

/// The character for one decimal digit.
pub open spec fn spec_digit_char(d: int) -> char {
    if d == 0 {
        '0'
    } else if d == 1 {
        '1'
    } else if d == 2 {
        '2'
    } else if d == 3 {
        '3'
    } else if d == 4 {
        '4'
    } else if d == 5 {
        '5'
    } else if d == 6 {
        '6'
    } else if d == 7 {
        '7'
    } else if d == 8 {
        '8'
    } else {
        '9'
    }
}

/// The decimal representation of a non-negative integer, most
/// significant digit first, with no leading zeros (except for 0 itself).
pub open spec fn spec_dec(n: int) -> Seq<char>
    decreases n,
{
    if n < 10 {
        seq![spec_digit_char(n)]
    } else {
        spec_dec(n / 10) + seq![spec_digit_char(n % 10)]
    }
}

fn digit_str(d: u64) -> (r: &'static str)
    requires
        d < 10,
    ensures
        r@ =~= seq![spec_digit_char(d as int)],
{
    proof {
        reveal_strlit("0");
        reveal_strlit("1");
        reveal_strlit("2");
        reveal_strlit("3");
        reveal_strlit("4");
        reveal_strlit("5");
        reveal_strlit("6");
        reveal_strlit("7");
        reveal_strlit("8");
        reveal_strlit("9");
    }
    if d == 0 {
        "0"
    } else if d == 1 {
        "1"
    } else if d == 2 {
        "2"
    } else if d == 3 {
        "3"
    } else if d == 4 {
        "4"
    } else if d == 5 {
        "5"
    } else if d == 6 {
        "6"
    } else if d == 7 {
        "7"
    } else if d == 8 {
        "8"
    } else {
        "9"
    }
}

/// Render an integer in decimal.
pub fn dec_string(n: u64) -> (r: String)
    ensures
        r@ == spec_dec(n as int),
    decreases n,
{
    if n < 10 {
        let s = digit_str(n);
        let r = s.to_owned();
        proof {
            assert(r@ =~= spec_dec(n as int));
        }
        r
    } else {
        let mut r = dec_string(n / 10);
        r.append(digit_str(n % 10));
        proof {
            assert(r@ =~= spec_dec(n as int));
        }
        r
    }
}

/// Truncation of a character sequence to at most `max` characters,
/// marking longer sequences with a trailing ellipsis.
pub open spec fn spec_truncate(s: Seq<char>, max: int) -> Seq<char> {
    if max < 4 {
        if s.len() <= max {
            s
        } else {
            s.take(max)
        }
    } else if s.len() <= max {
        s
    } else {
        s.take(max - 3) + "..."@
    }
}

/// Shorten a string to at most `max_len` characters for display,
/// replacing the removed tail with an ellipsis.
pub fn truncate(s: &str, max_len: usize) -> (r: String)
    ensures
        r@ == spec_truncate(s@, max_len as int),
{
    let len = s.unicode_len();
    if max_len < 4 {
        if len <= max_len {
            s.to_owned()
        } else {
            let r = s.substring_char(0, max_len).to_owned();
            proof {
                assert(r@ =~= spec_truncate(s@, max_len as int));
            }
            r
        }
    } else if len <= max_len {
        s.to_owned()
    } else {
        let mut r = s.substring_char(0, max_len - 3).to_owned();
        r.append("...");
        proof {
            assert(r@ =~= spec_truncate(s@, max_len as int));
        }
        r
    }
}

/// Index of the last space in a character sequence, or -1 when there is
/// none.
pub open spec fn spec_last_space(s: Seq<char>) -> int
    decreases s.len(),
{
    if s.len() == 0 {
        -1
    } else if s[s.len() - 1] == ' ' {
        s.len() - 1
    } else {
        spec_last_space(s.drop_last())
    }
}

/// A long query shortened to at most `max` characters, cut back to the
/// last word boundary when one exists inside the window. Remote search
/// endpoints put a limit on query length, so queries are built from
/// short focused prefixes rather than whole descriptions.
pub open spec fn spec_shorten(s: Seq<char>, max: int) -> Seq<char> {
    if s.len() <= max {
        s
    } else {
        let t = s.take(max);
        let p = spec_last_space(t);
        if p >= 0 {
            t.take(p)
        } else {
            t
        }
    }
}

proof fn lemma_last_space_bound(s: Seq<char>)
    ensures
        -1 <= spec_last_space(s) < s.len(),
    decreases s.len(),
{
    if s.len() > 0 && s[s.len() - 1] != ' ' {
        lemma_last_space_bound(s.drop_last());
    }
}

fn last_space(s: &str) -> (r: Option<usize>)
    ensures
        match r {
            Some(i) => i == spec_last_space(s@),
            None => spec_last_space(s@) == -1,
        },
{
    let len = s.unicode_len();
    let mut found: Option<usize> = None;
    let mut j: usize = 0;
    while j < len
        invariant
            j <= len,
            len == s@.len(),
            match found {
                Some(i) => i == spec_last_space(s@.take(j as int)),
                None => spec_last_space(s@.take(j as int)) == -1,
            },
        decreases len - j,
    {
        proof {
            assert(s@.take(j + 1).drop_last() =~= s@.take(j as int));
        }
        if s.get_char(j) == ' ' {
            found = Some(j);
        }
        j = j + 1;
    }
    proof {
        assert(s@.take(len as int) =~= s@);
    }
    found
}

/// A character buffer's mathematical image is its character sequence.
pub broadcast proof fn lemma_chars_deep_view(v: Vec<char>)
    ensures
        #[trigger] v.deep_view() == v@,
{
    assert(v.deep_view() =~= v@);
}

/// Collect a character buffer into a string.
///
/// Relies on `String::from_iter` over `Chars`: the resulting string
/// holds exactly the characters of the buffer, in order.
#[verifier::external_body]
pub fn string_from_chars(v: &Vec<char>) -> (r: String)
    ensures
        r@ == v@,
{
    v.iter().collect()
}

/// Split a string into its characters.
///
/// Relies on `str::chars`: the characters of the string, in order.
#[verifier::external_body]
pub fn chars_of(s: &str) -> (r: Vec<char>)
    ensures
        r@ == s@,
{
    s.chars().collect()
}

/// Index of the last occurrence of `c` in `s`, or -1 when there is
/// none.
pub open spec fn spec_last_index_of(s: Seq<char>, c: char) -> int
    decreases s.len(),
{
    if s.len() == 0 {
        -1
    } else if s[s.len() - 1] == c {
        s.len() - 1
    } else {
        spec_last_index_of(s.drop_last(), c)
    }
}

pub proof fn lemma_last_index_of_bound(s: Seq<char>, c: char)
    ensures
        -1 <= spec_last_index_of(s, c) < s.len(),
    decreases s.len(),
{
    if s.len() > 0 && s[s.len() - 1] != c {
        lemma_last_index_of_bound(s.drop_last(), c);
    }
}

/// Index of the last occurrence of `c` among the first `end` characters
/// of the buffer, or `None` when there is none.
pub fn last_index_before(v: &Vec<char>, end: usize, c: char) -> (r: Option<usize>)
    requires
        end <= v@.len(),
    ensures
        match r {
            Some(i) => i == spec_last_index_of(v@.take(end as int), c),
            None => spec_last_index_of(v@.take(end as int), c) == -1,
        },
{
    let mut found: Option<usize> = None;
    let mut j: usize = 0;
    while j < end
        invariant
            j <= end <= v@.len(),
            match found {
                Some(i) => i == spec_last_index_of(v@.take(j as int), c),
                None => spec_last_index_of(v@.take(j as int), c) == -1,
            },
        decreases end - j,
    {
        proof {
            assert(v@.take(j + 1).drop_last() =~= v@.take(j as int));
        }
        if v[j] == c {
            found = Some(j);
        }
        j = j + 1;
    }
    found
}

/// Index of the first occurrence of `c` at or after `start`, or `None`
/// when there is none.
pub open spec fn spec_first_index_from(s: Seq<char>, start: int, c: char) -> int
    decreases s.len() - start,
{
    if start < 0 || start >= s.len() {
        -1
    } else if s[start] == c {
        start
    } else {
        spec_first_index_from(s, start + 1, c)
    }
}

pub proof fn lemma_first_index_from_bound(s: Seq<char>, start: int, c: char)
    requires
        0 <= start,
    ensures
        spec_first_index_from(s, start, c) == -1 || start <= spec_first_index_from(s, start, c)
            < s.len(),
    decreases s.len() - start,
{
    if start < s.len() && s[start] != c {
        lemma_first_index_from_bound(s, start + 1, c);
    }
}

/// Index of the first occurrence of `c` at or after `start`, or `None`
/// when there is none.
pub fn first_index_from(v: &Vec<char>, start: usize, c: char) -> (r: Option<usize>)
    ensures
        match r {
            Some(i) => i == spec_first_index_from(v@, start as int, c),
            None => spec_first_index_from(v@, start as int, c) == -1,
        },
{
    let mut j: usize = start;
    let n = v.len();
    if start >= n {
        return None;
    }
    while j < n
        invariant
            start <= j <= n,
            n == v@.len(),
            spec_first_index_from(v@, start as int, c) == spec_first_index_from(v@, j as int, c),
        decreases n - j,
    {
        if v[j] == c {
            return Some(j);
        }
        j = j + 1;
    }
    None
}

/// Shorten a string to at most `max` characters, preferring to cut at
/// the last space inside the window.
pub fn shorten(s: &str, max: usize) -> (r: String)
    ensures
        r@ == spec_shorten(s@, max as int),
{
    let len = s.unicode_len();
    if len <= max {
        s.to_owned()
    } else {
        let head = s.substring_char(0, max);
        match last_space(head) {
            Some(p) => {
                proof {
                    lemma_last_space_bound(head@);
                }
                let r = head.substring_char(0, p).to_owned();
                proof {
                    assert(r@ =~= spec_shorten(s@, max as int));
                }
                r
            },
            None => {
                let r = head.to_owned();
                proof {
                    assert(r@ =~= spec_shorten(s@, max as int));
                }
                r
            },
        }
    }
}

} // verus!
