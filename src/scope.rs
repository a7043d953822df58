//! Scope strings: whitespace-separated tokens compared as unordered sets.

use vstd::prelude::*;

verus! {

/// The separators between scope tokens: the characters of Unicode's
/// White_Space property, those at which `str::split_whitespace` splits.
pub open spec fn is_scope_space(c: char) -> bool {
    let u = c as u32;
    (0x9 <= u <= 0xD) || u == 0x20 || u == 0x85 || u == 0xA0 || u == 0x1680 || (0x2000 <= u
        <= 0x200A) || u == 0x2028 || u == 0x2029 || u == 0x202F || u == 0x205F || u == 0x3000
}

/// Whether `c` separates scope tokens.
pub fn scope_space(c: char) -> (r: bool)
    ensures
        r == is_scope_space(c),
{
    let u = c as u32;
    (0x9 <= u && u <= 0xD) || u == 0x20 || u == 0x85 || u == 0xA0 || u == 0x1680 || (0x2000 <= u
        && u <= 0x200A) || u == 0x2028 || u == 0x2029 || u == 0x202F || u == 0x205F || u == 0x3000
}

/// Reads `s` left to right: the completed tokens, and the token in progress.
pub open spec fn scan_tokens(s: Seq<char>) -> (Seq<Seq<char>>, Seq<char>)
    decreases s.len(),
{
    if s.len() == 0 {
        (Seq::empty(), Seq::empty())
    } else {
        let (done, cur) = scan_tokens(s.drop_last());
        if is_scope_space(s.last()) {
            if cur.len() > 0 {
                (done.push(cur), Seq::empty())
            } else {
                (done, Seq::empty())
            }
        } else {
            (done, cur.push(s.last()))
        }
    }
}

/// The tokens of `s`, in order: maximal non-empty runs of non-space characters.
pub open spec fn scope_tokens(s: Seq<char>) -> Seq<Seq<char>> {
    let (done, cur) = scan_tokens(s);
    if cur.len() > 0 {
        done.push(cur)
    } else {
        done
    }
}

/// The scope set that a scope string denotes.
pub open spec fn scope_set(s: Seq<char>) -> Set<Seq<char>> {
    scope_tokens(s).to_set()
}

pub open spec fn string_views(v: Seq<String>) -> Seq<Seq<char>> {
    v.map_values(|w: String| w@)
}

/// Splits a scope string into its tokens.
pub fn split_scopes(s: &str) -> (r: Vec<String>)
    ensures
        string_views(r@) == scope_tokens(s@),
{
    let n = s.unicode_len();
    let mut words: Vec<String> = Vec::new();
    let mut start: usize = 0;
    let mut i: usize = 0;
    while i < n
        invariant
            n == s@.len(),
            start <= i <= n,
            scan_tokens(s@.subrange(0, i as int)) == (
                string_views(words@),
                s@.subrange(start as int, i as int),
            ),
        decreases n - i,
    {
        let c = s.get_char(i);
        proof {
            assert(s@.subrange(0, i + 1).drop_last() =~= s@.subrange(0, i as int));
            assert(s@.subrange(start as int, i + 1) =~= s@.subrange(start as int, i as int).push(c));
        }
        if scope_space(c) {
            if start < i {
                let w = String::from_str(s.substring_char(start, i));
                let ghost before = words@;
                words.push(w);
                proof {
                    assert(string_views(words@) =~= string_views(before).push(w@));
                }
            }
            start = i + 1;
        }
        i = i + 1;
    }
    if start < n {
        let w = String::from_str(s.substring_char(start, n));
        let ghost before = words@;
        words.push(w);
        proof {
            assert(string_views(words@) =~= string_views(before).push(w@));
        }
    }
    proof {
        assert(s@.subrange(0, n as int) =~= s@);
    }
    words
}

/// Whether `w` is one of the strings of `list`.
pub fn contains_scope(list: &Vec<String>, w: &String) -> (r: bool)
    ensures
        r == string_views(list@).contains(w@),
{
    let mut i: usize = 0;
    while i < list.len()
        invariant
            i <= list@.len(),
            forall|k: int| 0 <= k < i ==> list@[k]@ != w@,
        decreases list@.len() - i,
    {
        if list[i] == *w {
            assert(string_views(list@)[i as int] == w@);
            return true;
        }
        i = i + 1;
    }
    proof {
        if string_views(list@).contains(w@) {
            let k = choose|k: int| 0 <= k < string_views(list@).len() && string_views(list@)[k] == w@;
            assert(list@[k]@ == w@);
        }
    }
    false
}

/// Whether every scope of `required` is among those of `granted`.
pub fn scopes_cover(required: &Vec<String>, granted: &Vec<String>) -> (r: bool)
    ensures
        r == string_views(required@).to_set().subset_of(string_views(granted@).to_set()),
{
    let mut i: usize = 0;
    while i < required.len()
        invariant
            i <= required@.len(),
            forall|k: int| 0 <= k < i ==> string_views(granted@).contains(#[trigger] required@[k]@),
        decreases required@.len() - i,
    {
        if !contains_scope(granted, &required[i]) {
            assert(string_views(required@).to_set().contains(required@[i as int]@)) by {
                assert(string_views(required@)[i as int] == required@[i as int]@);
            }
            return false;
        }
        i = i + 1;
    }
    proof {
        assert forall|w: Seq<char>| string_views(required@).to_set().contains(w) implies string_views(
            granted@,
        ).to_set().contains(w) by {
            let k = choose|k: int| 0 <= k < string_views(required@).len() && string_views(required@)[k] == w;
            assert(required@[k]@ == w);
        }
    }
    true
}

/// Whether the scope string `granted` holds every scope that `required` names.
pub fn scope_satisfied(required: &str, granted: &str) -> (r: bool)
    ensures
        r == scope_set(required@).subset_of(scope_set(granted@)),
{
    let req = split_scopes(required);
    let got = split_scopes(granted);
    scopes_cover(&req, &got)
}

/// Scopes are compared as a set: reordering the tokens of the granted scope
/// string never changes whether it covers a requirement.
pub proof fn lemma_scope_order_irrelevant(required: Seq<char>, g1: Seq<char>, g2: Seq<char>)
    requires
        scope_tokens(g1).to_multiset() =~= scope_tokens(g2).to_multiset(),
    ensures
        scope_set(required).subset_of(scope_set(g1)) == scope_set(required).subset_of(
            scope_set(g2),
        ),
{
    let (t1, t2) = (scope_tokens(g1), scope_tokens(g2));
    t1.to_multiset_ensures();
    t2.to_multiset_ensures();
    assert forall|w: Seq<char>| t1.contains(w) <==> t2.contains(w) by {
        assert(t1.to_multiset().count(w) == t2.to_multiset().count(w));
    }
    assert(scope_set(g1) =~= scope_set(g2));
}

} // verus!
