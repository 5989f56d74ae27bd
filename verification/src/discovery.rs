//! Discovery: pull every addressable module identifier out of a listing
//! blob. An identifier is the literal category prefix followed by a
//! non-empty run of word characters (letters, digits, underscore, slash).
//! Matches are collected left to right, non-overlapping, and duplicates
//! are kept exactly as the console printed them.
use vstd::prelude::*;

use crate::records::ModuleRecord;
use crate::text::{match_at, pat_at};

verus! {

/// The characters an identifier's path may contain.
pub open spec fn is_word_char(c: char) -> bool {
    ('a' as u32) <= (c as u32) && (c as u32) <= ('z' as u32) || ('A' as u32) <= (c as u32) && (
    c as u32) <= ('Z' as u32) || ('0' as u32) <= (c as u32) && (c as u32) <= ('9' as u32) || c
        == '_' || c == '/'
}

/// The literal prefix identifying a module of the exploit category.
pub open spec fn module_prefix() -> Seq<char> {
    "exploit/"@
}

/// First position at or after `j` that does not hold a word character.
pub open spec fn word_end(s: Seq<char>, j: int) -> int
    decreases s.len() - j when 0 <= j <= s.len()
{
    if j < s.len() && is_word_char(s[j]) {
        word_end(s, j + 1)
    } else {
        j
    }
}

/// The run of word characters starting at `j` ends inside the text, and
/// everything in it is a word character.
pub proof fn lemma_word_end_props(s: Seq<char>, j: int)
    requires
        0 <= j <= s.len(),
    ensures
        j <= word_end(s, j) <= s.len(),
        forall|k: int| j <= k < word_end(s, j) ==> is_word_char(s[k]),
        word_end(s, j) == s.len() || !is_word_char(s[word_end(s, j)]),
    decreases s.len() - j,
{
    if j < s.len() && is_word_char(s[j]) {
        lemma_word_end_props(s, j + 1);
    }
}

/// Every module identifier in `s` at or after `i`: at each position where
/// the prefix is followed by at least one word character, the prefix and
/// the maximal word run form one identifier, and the scan resumes right
/// after it.
pub open spec fn scan_modules(s: Seq<char>, i: int) -> Seq<Seq<char>>
    decreases s.len() - i when 0 <= i <= s.len()
{
    if i + module_prefix().len() < s.len() && match_at(s, module_prefix(), i) && is_word_char(
        s[i + module_prefix().len()],
    ) {
        let e = word_end(s, i + module_prefix().len());
        if i < e <= s.len() {
            seq![s.subrange(i, e)] + scan_modules(s, e)
        } else {
            Seq::empty()
        }
    } else if i < s.len() {
        scan_modules(s, i + 1)
    } else {
        Seq::empty()
    }
}

fn is_word_char_exec(c: char) -> (b: bool)
    ensures
        b == is_word_char(c),
{
    ('a' as u32) <= (c as u32) && (c as u32) <= ('z' as u32) || ('A' as u32) <= (c as u32) && (
    c as u32) <= ('Z' as u32) || ('0' as u32) <= (c as u32) && (c as u32) <= ('9' as u32) || c
        == '_' || c == '/'
}

/// Collect every module identifier in a listing blob, in order,
/// duplicates kept.
#[verifier::loop_isolation(false)]
pub fn extract_module_names(text: &str) -> (r: Vec<String>)
    ensures
        r.deep_view() == scan_modules(text@, 0),
{
    proof {
        reveal_strlit("exploit/");
    }
    let n = text.unicode_len();
    let prefix = "exploit/";
    let plen = prefix.unicode_len();
    let mut out: Vec<String> = Vec::new();
    let mut i: usize = 0;
    while i < n
        invariant
            n == text@.len(),
            plen == module_prefix().len(),
            plen == 8,
            0 <= i <= n,
            out.deep_view() + scan_modules(text@, i as int) =~~= scan_modules(text@, 0),
        decreases n - i,
    {
        let ghost pre = out.deep_view();
        let hit = if plen < n - i {
            pat_at(text, i, prefix) && is_word_char_exec(text.get_char(i + plen))
        } else {
            false
        };
        if hit {
            let mut j: usize = i + plen;
            while j < n && is_word_char_exec(text.get_char(j))
                invariant
                    n == text@.len(),
                    i + plen <= j <= n,
                    word_end(text@, i + plen) == word_end(text@, j as int),
                decreases n - j,
            {
                j += 1;
            }
            proof {
                assert(word_end(text@, j as int) == j);
            }
            let name = text.substring_char(i, j);
            out.push(String::from_str(name));
            proof {
                assert(scan_modules(text@, i as int) =~~= seq![
                    text@.subrange(i as int, j as int),
                ] + scan_modules(text@, j as int));
                assert(out.deep_view() =~~= pre.push(text@.subrange(i as int, j as int)));
                assert(out.deep_view() + scan_modules(text@, j as int) =~~= scan_modules(
                    text@,
                    0,
                ));
            }
            i = j;
        } else {
            proof {
                assert(scan_modules(text@, i as int) == scan_modules(text@, i + 1));
            }
            i += 1;
        }
    }
    proof {
        assert(scan_modules(text@, n as int) =~~= Seq::<Seq<char>>::empty());
        assert(out.deep_view() =~~= scan_modules(text@, 0));
    }
    out
}

/// The initial record set of a listing: one blank record per identifier,
/// in discovery order, duplicates kept.
pub fn discover_modules(text: &str) -> (r: Vec<ModuleRecord>)
    ensures
        r@.len() == scan_modules(text@, 0).len(),
        forall|k: int|
            0 <= k < r@.len() ==> (#[trigger] r@[k]).name@ == scan_modules(text@, 0)[k]
                && r@[k].is_blank(),
{
    let names = extract_module_names(text);
    let mut out: Vec<ModuleRecord> = Vec::new();
    let mut i: usize = 0;
    while i < names.len()
        invariant
            0 <= i <= names@.len(),
            names.deep_view() == scan_modules(text@, 0),
            names.deep_view().len() == names@.len(),
            out@.len() == i,
            forall|k: int|
                0 <= k < i ==> (#[trigger] out@[k]).name@ == scan_modules(text@, 0)[k]
                    && out@[k].is_blank(),
        decreases names@.len() - i,
    {
        let rec = ModuleRecord::with_name(names[i].clone());
        out.push(rec);
        i += 1;
    }
    out
}

} // verus!
