//! Name-keyed association lists. The resolved catalog and the member tables
//! of a resolved class are held as `Vec<(String, V)>`, viewed as a
//! `Map<Seq<char>, V::V>` in which a later entry for a name shadows an
//! earlier one: insertion order decides conflicts, last write winning.

use vstd::prelude::*;

verus! {

/// The map described by the first `i` entries of `s`, later entries winning.
pub open spec fn assoc_view<V: View>(s: Seq<(String, V)>, i: int) -> Map<Seq<char>, V::V>
    decreases i,
{
    if i <= 0 {
        Map::empty()
    } else {
        assoc_view(s, i - 1).insert(s[i - 1].0@, s[i - 1].1@)
    }
}

/// The map described by all of `s`.
pub open spec fn assoc_map_full<V: View>(s: Seq<(String, V)>) -> Map<Seq<char>, V::V> {
    assoc_view(s, s.len() as int)
}

/// Appending an entry leaves every shorter prefix's map unchanged.
pub proof fn lemma_assoc_view_push<V: View>(s: Seq<(String, V)>, p: (String, V), i: int)
    requires
        0 <= i <= s.len(),
    ensures
        assoc_view(s.push(p), i) == assoc_view(s, i),
    decreases i,
{
    if i > 0 {
        lemma_assoc_view_push(s, p, i - 1);
        assert(s.push(p)[i - 1] == s[i - 1]);
    }
}

/// The whole map after a push is the map before it with one more binding.
pub proof fn lemma_assoc_map_push<V: View>(s: Seq<(String, V)>, p: (String, V))
    ensures
        assoc_map_full(s.push(p)) == assoc_map_full(s).insert(p.0@, p.1@),
{
    lemma_assoc_view_push(s, p, s.len() as int);
    assert(s.push(p)[s.len() as int] == p);
}

/// Entries at positions `i` and beyond that never mention `key` do not
/// change what the map holds at `key`.
pub proof fn lemma_assoc_view_skip<V: View>(s: Seq<(String, V)>, i: int, key: Seq<char>)
    requires
        0 <= i <= s.len(),
        forall|j: int| i <= j < s.len() ==> s[j].0@ != key,
    ensures
        assoc_map_full(s).contains_key(key) == assoc_view(s, i).contains_key(key),
        assoc_map_full(s).contains_key(key) ==> assoc_map_full(s)[key] == assoc_view(s, i)[key],
    decreases s.len() - i,
{
    if i < s.len() {
        lemma_assoc_view_skip(s, i + 1, key);
    }
}

/// Looks a name up in an association list, later entries winning, exactly as
/// the list's map view does.
pub fn assoc_get<'a, V: View>(entries: &'a Vec<(String, V)>, name: &str) -> (r: Option<&'a V>)
    ensures
        match r {
            Some(v) => assoc_map_full(entries@).contains_key(name@) && v@ == assoc_map_full(
                entries@,
            )[name@],
            None => !assoc_map_full(entries@).contains_key(name@),
        },
{
    let n = entries.len();
    let mut j: usize = n;
    while j > 0
        invariant
            j <= n,
            n == entries@.len(),
            forall|k: int| j <= k < n ==> entries@[k].0@ != name@,
        decreases j,
    {
        j -= 1;
        if crate::text::str_eq(entries[j].0.as_str(), name) {
            proof {
                lemma_assoc_view_skip(entries@, j + 1, name@);
            }
            return Some(&entries[j].1);
        }
    }
    proof {
        lemma_assoc_view_skip(entries@, 0, name@);
    }
    None
}

} // verus!
