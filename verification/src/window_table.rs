//! The window table: the set of open windows as the shell observes it.
//!
//! The host runtime owns the windows; the shell sees each one only as an
//! opaque numeric handle together with its minimized state. A table of open
//! windows is modelled as a finite map from handle to minimized state, built
//! up from the sequence of entries that the executable table stores.

use vstd::prelude::*;

verus! {

/// One open window, as the shell observes it: an opaque handle issued by the
/// host, and whether the window is currently in the minimized visual state.
#[derive(Clone, Copy, PartialEq, Eq, Structural)]
pub struct WindowEntry {
    pub id: u64,
    pub minimized: bool,
}

/// The window table a sequence of entries denotes: a map from each entry's
/// handle to its minimized state.
pub open spec fn table_view(s: Seq<WindowEntry>) -> Map<u64, bool>
    decreases s.len(),
{
    if s.len() == 0 {
        Map::empty()
    } else {
        table_view(s.drop_last()).insert(s.last().id, s.last().minimized)
    }
}

/// No two entries of the sequence share a handle.
pub open spec fn distinct_ids(s: Seq<WindowEntry>) -> bool {
    forall|i: int, j: int| 0 <= i < j < s.len() ==> s[i].id != s[j].id
}

/// A handle is in the table exactly when some entry carries it.
pub proof fn lemma_table_view_contains(s: Seq<WindowEntry>, id: u64)
    ensures
        table_view(s).contains_key(id) <==> exists|i: int| 0 <= i < s.len() && s[i].id == id,
    decreases s.len(),
{
    if s.len() == 0 {
    } else {
        lemma_table_view_contains(s.drop_last(), id);
        if s.last().id == id {
            assert(s[s.len() - 1].id == id);
        } else if table_view(s.drop_last()).contains_key(id) {
            let i = choose|i: int| 0 <= i < s.drop_last().len() && s.drop_last()[i].id == id;
            assert(s[i].id == id);
        } else if exists|i: int| 0 <= i < s.len() && s[i].id == id {
            let i = choose|i: int| 0 <= i < s.len() && s[i].id == id;
            assert(0 <= i < s.drop_last().len() && s.drop_last()[i].id == id);
        }
    }
}

/// The entry an in-range index denotes is in the table, with its own state.
pub proof fn lemma_table_view_index(s: Seq<WindowEntry>, i: int)
    requires
        distinct_ids(s),
        0 <= i < s.len(),
    ensures
        table_view(s).contains_key(s[i].id),
        table_view(s)[s[i].id] == s[i].minimized,
    decreases s.len(),
{
    if i == s.len() - 1 {
    } else {
        assert(distinct_ids(s.drop_last()));
        lemma_table_view_index(s.drop_last(), i);
        assert(s.drop_last()[i] == s[i]);
        assert(s[i].id != s.last().id);
    }
}

/// Removing an entry from the sequence removes exactly its handle from the
/// table.
pub proof fn lemma_table_view_remove(s: Seq<WindowEntry>, i: int)
    requires
        distinct_ids(s),
        0 <= i < s.len(),
    ensures
        table_view(s.remove(i)) == table_view(s).remove(s[i].id),
    decreases s.len(),
{
    let id = s[i].id;
    if i == s.len() - 1 {
        assert(s.remove(i) =~= s.drop_last());
        lemma_table_view_contains(s.drop_last(), id);
        assert(forall|j: int|
            0 <= j < s.drop_last().len() ==> #[trigger] s.drop_last()[j].id != id);
        assert(table_view(s.drop_last()) =~= table_view(s).remove(id));
    } else {
        let t = s.remove(i);
        assert(t.len() == s.len() - 1);
        assert(t.last() == s.last());
        assert(t.drop_last() =~= s.drop_last().remove(i));
        assert(distinct_ids(s.drop_last()));
        lemma_table_view_remove(s.drop_last(), i);
        assert(s.drop_last()[i] == s[i]);
        assert(id != s.last().id);
        assert(table_view(s.drop_last()).remove(id).insert(s.last().id, s.last().minimized)
            =~= table_view(s.drop_last()).insert(s.last().id, s.last().minimized).remove(id));
    }
}

/// Updating an entry in place rewrites exactly its handle's state in the
/// table.
pub proof fn lemma_table_view_update(s: Seq<WindowEntry>, i: int, e: WindowEntry)
    requires
        distinct_ids(s),
        0 <= i < s.len(),
        e.id == s[i].id,
    ensures
        table_view(s.update(i, e)) == table_view(s).insert(e.id, e.minimized),
    decreases s.len(),
{
    let u = s.update(i, e);
    if i == s.len() - 1 {
        assert(u.drop_last() =~= s.drop_last());
        assert(u.last() == e);
        assert(table_view(s.drop_last()).insert(e.id, e.minimized)
            =~= table_view(s).insert(e.id, e.minimized));
    } else {
        assert(u.drop_last() =~= s.drop_last().update(i, e));
        assert(u.last() == s.last());
        assert(distinct_ids(s.drop_last()));
        assert(s.drop_last()[i] == s[i]);
        lemma_table_view_update(s.drop_last(), i, e);
        assert(e.id != s.last().id);
        assert(table_view(s.drop_last()).insert(e.id, e.minimized).insert(
            s.last().id,
            s.last().minimized,
        ) =~= table_view(s).insert(e.id, e.minimized));
    }
}

/// Appending an entry adds exactly its handle to the table.
pub proof fn lemma_table_view_push(s: Seq<WindowEntry>, e: WindowEntry)
    ensures
        table_view(s.push(e)) == table_view(s).insert(e.id, e.minimized),
{
    assert(s.push(e).drop_last() =~= s);
    assert(s.push(e).last() == e);
}

/// With distinct handles the table has exactly one key per entry.
pub proof fn lemma_table_view_len(s: Seq<WindowEntry>)
    requires
        distinct_ids(s),
    ensures
        table_view(s).dom().finite(),
        table_view(s).dom().len() == s.len(),
    decreases s.len(),
{
    if s.len() == 0 {
        assert(table_view(s).dom() =~= Set::<u64>::empty());
    } else {
        assert(distinct_ids(s.drop_last()));
        lemma_table_view_len(s.drop_last());
        lemma_table_view_contains(s.drop_last(), s.last().id);
        assert(forall|j: int|
            0 <= j < s.drop_last().len() ==> #[trigger] s.drop_last()[j].id != s.last().id);
        assert(!table_view(s.drop_last()).contains_key(s.last().id));
        assert(table_view(s).dom() =~= table_view(s.drop_last()).dom().insert(s.last().id));
    }
}

/// Removing an entry keeps the remaining handles distinct.
pub proof fn lemma_distinct_remove(s: Seq<WindowEntry>, i: int)
    requires
        distinct_ids(s),
        0 <= i < s.len(),
    ensures
        distinct_ids(s.remove(i)),
{
    let t = s.remove(i);
    assert forall|a: int, b: int| 0 <= a < b < t.len() implies t[a].id != t[b].id by {
        let a0: int = if a < i {
            a
        } else {
            a + 1
        };
        let b0: int = if b < i {
            b
        } else {
            b + 1
        };
        assert(t[a] == s[a0]);
        assert(t[b] == s[b0]);
    }
}

/// Rewriting an entry's state under its own handle keeps the handles
/// distinct.
pub proof fn lemma_distinct_update(s: Seq<WindowEntry>, i: int, e: WindowEntry)
    requires
        distinct_ids(s),
        0 <= i < s.len(),
        e.id == s[i].id,
    ensures
        distinct_ids(s.update(i, e)),
{
}

} // verus!
