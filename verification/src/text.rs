//! Exact, executable text primitives: substring search, splitting on a
//! separator, whitespace trimming and joining. Every function is specified
//! against a small recursive spec function over `Seq<char>`.
use vstd::prelude::*;

verus! {

/// The whitespace characters that trimming removes.
pub open spec fn is_ws(c: char) -> bool {
    c == ' ' || c == '\n' || c == '\t' || c == '\r'
}

/// `pat` occurs in `s` starting at position `i`.
pub open spec fn match_at(s: Seq<char>, pat: Seq<char>, i: int) -> bool {
    0 <= i && i + pat.len() <= s.len() && s.subrange(i, i + pat.len() as int) == pat
}

/// Position of the first occurrence of `pat` in `s` at or after `i`.
pub open spec fn first_match_from(s: Seq<char>, pat: Seq<char>, i: int) -> Option<int>
    decreases s.len() - i when 0 <= i <= s.len()
{
    if i + pat.len() > s.len() {
        None
    } else if match_at(s, pat, i) {
        Some(i)
    } else if i < s.len() {
        first_match_from(s, pat, i + 1)
    } else {
        None
    }
}

/// Position of the first occurrence of `pat` in `s`, if any.
pub open spec fn first_match(s: Seq<char>, pat: Seq<char>) -> Option<int> {
    first_match_from(s, pat, 0)
}

/// `pat` occurs somewhere in `s`.
pub open spec fn contains_pat(s: Seq<char>, pat: Seq<char>) -> bool {
    first_match(s, pat) is Some
}

/// A found first match really is a match, and lies at or after the start
/// of the search.
pub proof fn lemma_first_match_props(s: Seq<char>, pat: Seq<char>, i: int)
    requires
        0 <= i <= s.len(),
    ensures
        match first_match_from(s, pat, i) {
            Some(j) => i <= j && match_at(s, pat, j),
            None => true,
        },
    decreases s.len() - i,
{
    if i + pat.len() > s.len() {
    } else if match_at(s, pat, i) {
    } else {
        assert(pat.len() > 0) by {
            if pat.len() == 0 {
                assert(s.subrange(i, i) =~= pat);
            }
        }
        lemma_first_match_props(s, pat, i + 1);
    }
}

/// If `pat` matches anywhere at or after `i`, the scan from `i` finds one.
pub proof fn lemma_match_implies_found(s: Seq<char>, pat: Seq<char>, j: int, i: int)
    requires
        0 <= i <= j,
        match_at(s, pat, j),
    ensures
        first_match_from(s, pat, i) is Some,
    decreases j - i,
{
    if i + pat.len() > s.len() {
        assert(false);
    } else if match_at(s, pat, i) {
    } else {
        lemma_match_implies_found(s, pat, j, i + 1);
    }
}

/// Splitting `s` at every occurrence of `sep`, scanning left to right.
pub open spec fn split_spec(s: Seq<char>, sep: Seq<char>) -> Seq<Seq<char>>
    decreases s.len() when sep.len() > 0
{
    match first_match(s, sep) {
        Some(j) => if 0 <= j && j + sep.len() <= s.len() {
            seq![s.subrange(0, j)] + split_spec(
                s.subrange(j + sep.len() as int, s.len() as int),
                sep,
            )
        } else {
            seq![s]
        },
        None => seq![s],
    }
}

/// The pieces interleaved with `sep`.
pub open spec fn join_with(parts: Seq<Seq<char>>, sep: Seq<char>) -> Seq<char>
    decreases parts.len()
{
    if parts.len() == 0 {
        Seq::empty()
    } else if parts.len() == 1 {
        parts[0]
    } else {
        join_with(parts.drop_last(), sep) + sep + parts.last()
    }
}

/// Leading whitespace removed.
pub open spec fn trim_start_spec(s: Seq<char>) -> Seq<char>
    decreases s.len()
{
    if s.len() > 0 && is_ws(s[0]) {
        trim_start_spec(s.drop_first())
    } else {
        s
    }
}

/// Trailing whitespace removed.
pub open spec fn trim_end_spec(s: Seq<char>) -> Seq<char>
    decreases s.len()
{
    if s.len() > 0 && is_ws(s[s.len() - 1]) {
        trim_end_spec(s.drop_last())
    } else {
        s
    }
}

/// Leading and trailing whitespace removed.
pub open spec fn trim_spec(s: Seq<char>) -> Seq<char> {
    trim_end_spec(trim_start_spec(s))
}

proof fn lemma_trim_start_range(s: Seq<char>, a: int)
    requires
        0 <= a <= s.len(),
        forall|k: int| 0 <= k < a ==> is_ws(s[k]),
        a == s.len() || !is_ws(s[a]),
    ensures
        trim_start_spec(s) == s.subrange(a, s.len() as int),
    decreases a,
{
    if a == 0 {
        assert(s.subrange(0, s.len() as int) =~= s);
    } else {
        let t = s.drop_first();
        lemma_trim_start_range(t, a - 1);
        assert(t.subrange(a - 1, t.len() as int) =~= s.subrange(a, s.len() as int));
    }
}

proof fn lemma_trim_end_range(s: Seq<char>, b: int)
    requires
        0 <= b <= s.len(),
        forall|k: int| b <= k < s.len() ==> is_ws(s[k]),
        b == 0 || !is_ws(s[b - 1]),
    ensures
        trim_end_spec(s) == s.subrange(0, b),
    decreases s.len() - b,
{
    if b == s.len() {
        assert(s.subrange(0, b) =~= s);
    } else {
        let t = s.drop_last();
        lemma_trim_end_range(t, b);
        assert(t.subrange(0, b) =~= s.subrange(0, b));
    }
}

fn is_ws_char(c: char) -> (b: bool)
    ensures
        b == is_ws(c),
{
    c == ' ' || c == '\n' || c == '\t' || c == '\r'
}

/// Does `pat` occur in `s` exactly at position `i`?
pub fn pat_at(s: &str, i: usize, pat: &str) -> (b: bool)
    requires
        i + pat@.len() <= s@.len(),
    ensures
        b == match_at(s@, pat@, i as int),
{
    let sl = s.unicode_len();
    let n = pat.unicode_len();
    let mut j: usize = 0;
    while j < n
        invariant
            n == pat@.len(),
            sl == s@.len(),
            i + n <= sl,
            0 <= j <= n,
            forall|k: int| 0 <= k < j ==> s@[i + k] == pat@[k],
        decreases n - j,
    {
        if s.get_char(i + j) != pat.get_char(j) {
            proof {
                if match_at(s@, pat@, i as int) {
                    assert(s@.subrange(i as int, i + n as int)[j as int] == pat@[j as int]);
                }
            }
            return false;
        }
        j += 1;
    }
    proof {
        assert(s@.subrange(i as int, i + n as int) =~= pat@);
    }
    true
}

/// First occurrence of `pat` in `s`, scanning from the left.
pub fn find_pat(s: &str, pat: &str) -> (r: Option<usize>)
    ensures
        match r {
            Some(i) => first_match(s@, pat@) == Some(i as int),
            None => first_match(s@, pat@) is None,
        },
{
    let sl = s.unicode_len();
    let pl = pat.unicode_len();
    if pl > sl {
        return None;
    }
    if pl == 0 {
        proof {
            assert(s@.subrange(0, 0) =~= pat@);
        }
        return Some(0);
    }
    let mut i: usize = 0;
    while i <= sl - pl
        invariant
            sl == s@.len(),
            pl == pat@.len(),
            0 < pl <= sl,
            0 <= i <= sl - pl + 1,
            first_match_from(s@, pat@, 0) == first_match_from(s@, pat@, i as int),
        decreases sl - i,
    {
        if pat_at(s, i, pat) {
            proof {
                assert(first_match_from(s@, pat@, i as int) == Some(i as int));
            }
            return Some(i);
        }
        proof {
            assert(first_match_from(s@, pat@, i as int) == first_match_from(
                s@,
                pat@,
                i + 1,
            ));
        }
        i += 1;
    }
    proof {
        assert(first_match_from(s@, pat@, i as int) is None);
    }
    None
}

/// Does `pat` occur somewhere in `s`?
pub fn has_pat(s: &str, pat: &str) -> (b: bool)
    ensures
        b == contains_pat(s@, pat@),
{
    find_pat(s, pat).is_some()
}

/// Character-for-character equality of two string slices.
pub fn str_eq(a: &str, b: &str) -> (r: bool)
    ensures
        r == (a@ == b@),
{
    let al = a.unicode_len();
    let bl = b.unicode_len();
    if al != bl {
        return false;
    }
    let r = pat_at(a, 0, b);
    proof {
        assert(a@.subrange(0, al as int) =~= a@);
    }
    r
}

/// Copy of `s` with leading and trailing whitespace removed.
pub fn trim_ws(s: &str) -> (r: String)
    ensures
        r@ == trim_spec(s@),
{
    let n = s.unicode_len();
    let mut a: usize = 0;
    while a < n && is_ws_char(s.get_char(a))
        invariant
            n == s@.len(),
            0 <= a <= n,
            forall|k: int| 0 <= k < a ==> is_ws(s@[k]),
        decreases n - a,
    {
        a += 1;
    }
    let mut b: usize = n;
    while b > a && is_ws_char(s.get_char(b - 1))
        invariant
            n == s@.len(),
            a <= b <= n,
            forall|k: int| b <= k < n ==> is_ws(s@[k]),
        decreases b,
    {
        b -= 1;
    }
    proof {
        lemma_trim_start_range(s@, a as int);
        let t = s@.subrange(a as int, n as int);
        assert(forall|k: int| b - a <= k < t.len() ==> is_ws(#[trigger] t[k]));
        lemma_trim_end_range(t, b - a);
        assert(t.subrange(0, b - a) =~= s@.subrange(a as int, b as int));
    }
    let piece = s.substring_char(a, b);
    String::from_str(piece)
}

/// Split `s` at every occurrence of `sep`, scanning left to right.
pub fn split_on(s: &str, sep: &str) -> (r: Vec<String>)
    requires
        sep@.len() > 0,
    ensures
        r.deep_view() == split_spec(s@, sep@),
{
    let mut out: Vec<String> = Vec::new();
    let mut rest: &str = s;
    loop
        invariant
            sep@.len() > 0,
            out.deep_view() + split_spec(rest@, sep@) =~~= split_spec(s@, sep@),
        decreases rest@.len(),
    {
        let ghost pre = out.deep_view();
        match find_pat(rest, sep) {
            None => {
                out.push(String::from_str(rest));
                proof {
                    assert(out.deep_view() =~~= pre.push(rest@));
                    assert(pre.push(rest@) =~~= pre + seq![rest@]);
                    assert(out.deep_view() =~~= split_spec(s@, sep@));
                }
                return out;
            },
            Some(i) => {
                proof {
                    lemma_first_match_props(rest@, sep@, 0);
                }
                let rl = rest.unicode_len();
                let sl = sep.unicode_len();
                let piece = rest.substring_char(0, i);
                out.push(String::from_str(piece));
                let ghost old_rest = rest@;
                rest = rest.substring_char(i + sl, rl);
                proof {
                    assert(split_spec(old_rest, sep@) == seq![old_rest.subrange(0, i as int)]
                        + split_spec(rest@, sep@));
                    assert(out.deep_view() =~~= pre.push(old_rest.subrange(0, i as int)));
                    assert(out.deep_view() + split_spec(rest@, sep@) =~~= split_spec(s@, sep@));
                }
            },
        }
    }
}

/// Join the strings in `parts`, writing `sep` between neighbours.
pub fn join_strings(parts: &Vec<String>, sep: &str) -> (r: String)
    ensures
        r@ == join_with(parts.deep_view(), sep@),
{
    let mut out = String::new();
    let mut i: usize = 0;
    while i < parts.len()
        invariant
            0 <= i <= parts@.len(),
            parts.deep_view().len() == parts@.len(),
            out@ == join_with(parts.deep_view().take(i as int), sep@),
        decreases parts@.len() - i,
    {
        if i > 0 {
            out.append(sep);
        }
        out.append(parts[i].as_str());
        proof {
            let dv = parts.deep_view();
            assert(dv.take(i + 1).drop_last() =~~= dv.take(i as int));
            assert(dv.take(i + 1).last() == dv[i as int]);
            if i == 0 {
                assert(out@ =~= dv[0]);
                assert(join_with(dv.take(1), sep@) == dv.take(1)[0]);
            }
        }
        i += 1;
    }
    proof {
        assert(parts.deep_view().take(parts@.len() as int) =~~= parts.deep_view());
    }
    out
}

} // verus!
