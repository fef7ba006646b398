//! What holds of the import list across its operations.

use vstd::prelude::*;
use crate::modlist::{
    append_all_unique, append_unique, lemma_position_of, lemma_position_of_is, moved_down,
    moved_up, no_duplicates, position_of, remove_first, swap_at, ModListView,
};

verus! {

/// Importing a modlist leaves it imported, and keeps the import list free of
/// duplicates.
pub proof fn law_import_keeps_unique(s: Seq<Seq<char>>, x: Seq<char>)
    requires
        no_duplicates(s),
    ensures
        no_duplicates(append_unique(s, x)),
        append_unique(s, x).contains(x),
{
    if !s.contains(x) {
        assert(s.push(x)[s.len() as int] == x);
    }
}

/// Importing the same modlist twice is the same as importing it once.
pub proof fn law_import_idempotent(s: Seq<Seq<char>>, x: Seq<char>)
    ensures
        append_unique(append_unique(s, x), x) == append_unique(s, x),
{
    if !s.contains(x) {
        assert(s.push(x)[s.len() as int] == x);
    }
}

/// Removing a modlist that was just imported, and was not imported before,
/// gives back the import list as it was.
pub proof fn law_remove_undoes_import(s: Seq<Seq<char>>, x: Seq<char>)
    requires
        !s.contains(x),
    ensures
        remove_first(append_unique(s, x), x) == s,
{
    let t = s.push(x);
    assert forall|j: int| 0 <= j < s.len() implies t[j] != x by {
        assert(t[j] == s[j]);
        if s[j] == x {
            assert(s.contains(x));
        }
    }
    lemma_position_of_is(t, x, s.len() as int);
    assert(t.remove(s.len() as int) =~= s);
}

/// After a removal from a list without duplicates, the modlist is no longer
/// imported, and the list stays free of duplicates.
pub proof fn law_remove_removes(s: Seq<Seq<char>>, x: Seq<char>)
    requires
        no_duplicates(s),
    ensures
        !remove_first(s, x).contains(x),
        no_duplicates(remove_first(s, x)),
{
    lemma_position_of(s, x);
    match position_of(s, x) {
        Some(i) => {
            let t = s.remove(i);
            if t.contains(x) {
                let k = choose|k: int| 0 <= k < t.len() && t[k] == x;
                if k < i {
                    assert(s[k] == x);
                } else {
                    assert(s[k + 1] == x);
                }
            }
            assert forall|a: int, b: int|
                0 <= a < t.len() && 0 <= b < t.len() && a != b implies t[a] != t[b] by {
                let a2 = if a < i { a } else { a + 1 };
                let b2 = if b < i { b } else { b + 1 };
                assert(t[a] == s[a2] && t[b] == s[b2]);
            }
        },
        None => {},
    }
}

/// Moving a modlist up or down only reorders the imports: the same names,
/// as many times each.
pub proof fn law_moves_reorder(s: Seq<Seq<char>>, x: Seq<char>)
    ensures
        moved_up(s, x).to_multiset() == s.to_multiset(),
        moved_down(s, x).to_multiset() == s.to_multiset(),
        moved_up(s, x).len() == s.len(),
        moved_down(s, x).len() == s.len(),
{
    lemma_position_of(s, x);
    match position_of(s, x) {
        Some(i) => {
            if i > 0 {
                lemma_swap_multiset(s, i - 1, i);
            }
            if i < s.len() - 1 {
                lemma_swap_multiset(s, i, i + 1);
            }
        },
        None => {},
    }
}

/// Exchanging two elements keeps the multiset of a sequence.
pub proof fn lemma_swap_multiset(s: Seq<Seq<char>>, i: int, j: int)
    requires
        0 <= i < s.len(),
        0 <= j < s.len(),
    ensures
        swap_at(s, i, j).to_multiset() == s.to_multiset(),
{
    broadcast use vstd::seq_lib::group_to_multiset_ensures;

    let t = s.update(i, s[j]);
    assert(t.to_multiset() == s.to_multiset().remove(s[i]).insert(s[j]));
    let u = t.update(j, s[i]);
    assert(u.to_multiset() == t.to_multiset().remove(t[j]).insert(s[i]));
    if i == j {
        assert(u =~= s);
    } else {
        assert(t[j] == s[j]);
        assert(s.to_multiset().contains(s[i]));
        assert(s.to_multiset().remove(s[i]).insert(s[j]).remove(s[j]).insert(s[i]) =~= s.to_multiset());
    }
}

/// Moving a modlist up and then down again gives back the import list.
pub proof fn law_move_down_undoes_move_up(s: Seq<Seq<char>>, x: Seq<char>)
    requires
        position_of(s, x) matches Some(i) && i > 0,
    ensures
        moved_down(moved_up(s, x), x) == s,
{
    lemma_position_of(s, x);
    let i = position_of(s, x)->0;
    let t = swap_at(s, i - 1, i);
    assert forall|j: int| 0 <= j < i - 1 implies t[j] != x by {
        assert(t[j] == s[j]);
    }
    lemma_position_of_is(t, x, i - 1);
    assert(swap_at(t, i - 1, i) =~= s);
}

/// In a list without duplicates, moving a modlist down and then up again
/// gives back the import list.
pub proof fn law_move_up_undoes_move_down(s: Seq<Seq<char>>, x: Seq<char>)
    requires
        no_duplicates(s),
        position_of(s, x) matches Some(i) && i < s.len() - 1,
    ensures
        moved_up(moved_down(s, x), x) == s,
{
    lemma_position_of(s, x);
    let i = position_of(s, x)->0;
    let t = swap_at(s, i, i + 1);
    assert(t[i] == s[i + 1]);
    assert(s[i + 1] != s[i]);
    assert forall|j: int| 0 <= j < i + 1 implies t[j] != x by {
        if j < i {
            assert(t[j] == s[j]);
        }
    }
    lemma_position_of_is(t, x, i + 1);
    assert(swap_at(t, i, i + 1) =~= s);
}

/// Every name of `xs` is imported after appending them all, and what was
/// imported before stays imported.
pub proof fn lemma_append_all_contains(s: Seq<Seq<char>>, xs: Seq<Seq<char>>)
    ensures
        forall|y: Seq<char>| xs.contains(y) ==> #[trigger] append_all_unique(s, xs).contains(y),
        forall|y: Seq<char>| s.contains(y) ==> #[trigger] append_all_unique(s, xs).contains(y),
    decreases xs.len(),
{
    if xs.len() > 0 {
        let prev = append_all_unique(s, xs.drop_last());
        lemma_append_all_contains(s, xs.drop_last());
        let r = append_unique(prev, xs.last());
        assert forall|y: Seq<char>| prev.contains(y) implies r.contains(y) by {
            if !prev.contains(xs.last()) {
                let k = choose|k: int| 0 <= k < prev.len() && prev[k] == y;
                assert(r[k] == y);
            }
        }
        assert(r.contains(xs.last())) by {
            if !prev.contains(xs.last()) {
                assert(r[prev.len() as int] == xs.last());
            }
        }
        assert forall|y: Seq<char>| xs.contains(y) implies r.contains(y) by {
            let k = choose|k: int| 0 <= k < xs.len() && xs[k] == y;
            if k < xs.len() - 1 {
                assert(xs.drop_last()[k] == y);
            }
        }
    }
}

/// Appending names that are all imported already changes nothing.
pub proof fn lemma_append_all_present(s: Seq<Seq<char>>, xs: Seq<Seq<char>>)
    requires
        forall|y: Seq<char>| xs.contains(y) ==> s.contains(y),
    ensures
        append_all_unique(s, xs) == s,
    decreases xs.len(),
{
    if xs.len() > 0 {
        assert forall|y: Seq<char>| xs.drop_last().contains(y) implies s.contains(y) by {
            let k = choose|k: int| 0 <= k < xs.drop_last().len() && xs.drop_last()[k] == y;
            assert(xs[k] == y);
        }
        lemma_append_all_present(s, xs.drop_last());
        assert(xs.contains(xs.last()));
    }
}

/// Reading the same configuration twice gives what reading it once gives.
pub proof fn law_reapply_config_idempotent(s: Seq<Seq<char>>, xs: Seq<Seq<char>>)
    ensures
        append_all_unique(append_all_unique(s, xs), xs) == append_all_unique(s, xs),
{
    lemma_append_all_contains(s, xs);
    lemma_append_all_present(append_all_unique(s, xs), xs);
}

/// Appending a list without duplicates to an empty import list gives that
/// list back.
pub proof fn lemma_append_all_to_empty(xs: Seq<Seq<char>>)
    requires
        no_duplicates(xs),
    ensures
        append_all_unique(Seq::empty(), xs) == xs,
    decreases xs.len(),
{
    if xs.len() > 0 {
        let init = xs.drop_last();
        assert(no_duplicates(init));
        lemma_append_all_to_empty(init);
        if init.contains(xs.last()) {
            let k = choose|k: int| 0 <= k < init.len() && init[k] == xs.last();
            assert(xs[k] == xs[xs.len() - 1]);
        }
        assert(init.push(xs.last()) =~= xs);
    }
}

/// Appending names one by one, each unless already present, keeps an import
/// list free of duplicates.
pub proof fn law_append_all_keeps_unique(s: Seq<Seq<char>>, xs: Seq<Seq<char>>)
    requires
        no_duplicates(s),
    ensures
        no_duplicates(append_all_unique(s, xs)),
    decreases xs.len(),
{
    if xs.len() > 0 {
        law_append_all_keeps_unique(s, xs.drop_last());
        law_import_keeps_unique(append_all_unique(s, xs.drop_last()), xs.last());
    }
}

/// What is written to the configuration file is what is read back: a fresh
/// modlist that reads the configuration of a modlist without duplicate
/// imports has that modlist's imports, in order, and its visibility.
pub proof fn law_config_round_trip(m: ModListView)
    requires
        no_duplicates(m.imports),
    ensures
        (ModListView {
            name: m.name,
            imports: append_all_unique(Seq::empty(), m.imports),
            visibility: m.visibility,
        }) == m,
{
    lemma_append_all_to_empty(m.imports);
}

} // verus!
