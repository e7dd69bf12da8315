//! Association lists from user ids to display names, with unique keys.
//!
//! Both analytics consumers keep such a list: the overview's chatter map
//! (last write wins on the name) and the giveaway's entrant map (first write
//! wins). The list keeps insertion order, which the giveaway draw indexes.

use vstd::prelude::*;

verus! {

/// The abstract value of an id-to-name list.
pub open spec fn entries_view(s: Seq<(String, String)>) -> Seq<(Seq<char>, Seq<char>)> {
    s.map_values(|p: (String, String)| (p.0@, p.1@))
}

/// Whether position `i` of `s` holds the key `id`.
pub open spec fn entry_at(s: Seq<(Seq<char>, Seq<char>)>, i: int, id: Seq<char>) -> bool {
    0 <= i < s.len() && s[i].0 == id
}

/// Whether some entry of `s` has the key `id`.
pub open spec fn has_key(s: Seq<(Seq<char>, Seq<char>)>, id: Seq<char>) -> bool {
    exists|i: int| entry_at(s, i, id)
}

/// The position of the entry with key `id`; meaningful only when the keys of
/// `s` are unique and one of them is `id`.
pub open spec fn key_index(s: Seq<(Seq<char>, Seq<char>)>, id: Seq<char>) -> int {
    choose|i: int| entry_at(s, i, id)
}

/// All keys of `s` are distinct.
pub open spec fn keys_unique(s: Seq<(Seq<char>, Seq<char>)>) -> bool {
    forall|i: int, j: int|
        0 <= i < j < s.len() ==> (#[trigger] s[i]).0 != (#[trigger] s[j]).0
}

/// Insert or overwrite: a new key is appended, a known key has its name
/// overwritten (last write wins).
pub open spec fn upsert(s: Seq<(Seq<char>, Seq<char>)>, id: Seq<char>, name: Seq<char>) -> Seq<
    (Seq<char>, Seq<char>),
> {
    if has_key(s, id) {
        let i = key_index(s, id);
        s.update(i, (id, name))
    } else {
        s.push((id, name))
    }
}

/// Insert only if absent: a known key keeps its first name (first write wins).
pub open spec fn insert_if_absent(
    s: Seq<(Seq<char>, Seq<char>)>,
    id: Seq<char>,
    name: Seq<char>,
) -> Seq<(Seq<char>, Seq<char>)> {
    if has_key(s, id) {
        s
    } else {
        s.push((id, name))
    }
}

/// Appending an absent key keeps the keys unique.
pub proof fn lemma_push_absent_keeps_unique(
    s: Seq<(Seq<char>, Seq<char>)>,
    id: Seq<char>,
    name: Seq<char>,
)
    requires
        keys_unique(s),
        !has_key(s, id),
    ensures
        keys_unique(s.push((id, name))),
{
    let post = s.push((id, name));
    assert forall|i: int, j: int| 0 <= i < j < post.len() implies (#[trigger] post[i]).0 != (
    #[trigger] post[j]).0 by {
        if j < s.len() {
            assert(s[i].0 != s[j].0);
        } else {
            assert(!entry_at(s, i, id));
            assert(post[j].0 == id);
        }
    }
}

/// Overwriting the name at a key's position keeps the keys unique.
pub proof fn lemma_update_name_keeps_unique(
    s: Seq<(Seq<char>, Seq<char>)>,
    i: int,
    name: Seq<char>,
)
    requires
        keys_unique(s),
        0 <= i < s.len(),
    ensures
        keys_unique(s.update(i, (s[i].0, name))),
{
    let post = s.update(i, (s[i].0, name));
    assert(forall|k: int| 0 <= k < s.len() ==> (#[trigger] post[k]).0 == s[k].0);
}

/// Find the position of `id` among the keys, if it is there.
pub fn find_key(entries: &Vec<(String, String)>, id: &String) -> (idx: Option<usize>)
    ensures
        match idx {
            Some(i) => entry_at(entries_view(entries@), i as int, id@),
            None => !has_key(entries_view(entries@), id@),
        },
{
    let mut i: usize = 0;
    while i < entries.len()
        invariant
            i <= entries@.len(),
            forall|j: int| 0 <= j < i ==> !entry_at(entries_view(entries@), j, id@),
        decreases entries@.len() - i,
    {
        if entries[i].0 == *id {
            return Some(i);
        }
        i = i + 1;
    }
    None
}

} // verus!
