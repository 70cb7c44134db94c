use vstd::prelude::*;
use crate::profile::ProfileModel;
use crate::store::{has_name, is_first_match, other_than, without, names_unique, count_named};

verus! {

broadcast use vstd::seq_lib::group_seq_properties;

/// A list with no entry named `name` counts none of that name.
proof fn lemma_absent_counts_zero(ps: Seq<ProfileModel>, name: Seq<char>)
    requires
        !has_name(ps, name),
    ensures
        count_named(ps, name) == 0,
    decreases ps.len(),
{
    if ps.len() > 0 {
        assert(ps.drop_last().len() < ps.len());
        assert forall|i: int| 0 <= i < ps.drop_last().len() implies #[trigger] ps.drop_last()[i].name
            != name by {
            assert(ps[i].name != name);
        }
        lemma_absent_counts_zero(ps.drop_last(), name);
        assert(ps[ps.len() - 1].name != name);
    }
}

/// Removing a name that no entry carries leaves the list as it is.
proof fn lemma_without_absent(ps: Seq<ProfileModel>, name: Seq<char>)
    requires
        !has_name(ps, name),
    ensures
        without(ps, name) == ps,
    decreases ps.len(),
{
    reveal(Seq::filter);
    if ps.len() > 0 {
        assert forall|i: int| 0 <= i < ps.drop_last().len() implies #[trigger] ps.drop_last()[i].name
            != name by {
            assert(ps[i].name != name);
        }
        lemma_without_absent(ps.drop_last(), name);
        assert(ps[ps.len() - 1].name != name);
        assert(ps.drop_last().push(ps.last()) =~= ps);
    }
}

/// Adding a profile under a name that is not taken leaves it listed exactly
/// once, and the names stay unique.
pub proof fn lemma_add_lists_once(ps: Seq<ProfileModel>, name: Seq<char>, backend: Seq<char>)
    requires
        names_unique(ps),
        !has_name(ps, name),
    ensures
        count_named(ps.push(ProfileModel { name, backend }), name) == 1,
        has_name(ps.push(ProfileModel { name, backend }), name),
        names_unique(ps.push(ProfileModel { name, backend })),
{
    let added = ps.push(ProfileModel { name, backend });
    lemma_absent_counts_zero(ps, name);
    assert(added.drop_last() =~= ps);
    assert(added[ps.len() as int].name == name);
    assert forall|i: int, j: int|
        0 <= i < added.len() && 0 <= j < added.len() && i != j implies #[trigger] added[i].name
        != #[trigger] added[j].name by {
        if i < ps.len() && j < ps.len() {
            assert(ps[i].name != ps[j].name);
        } else if i < ps.len() {
            assert(ps[i].name != name);
        } else {
            assert(ps[j].name != name);
        }
    }
}

/// Editing the entry at its first match changes that entry's backend and
/// nothing else: every name, and every other entry, stays as it was.
pub proof fn lemma_edit_changes_only_backend(
    ps: Seq<ProfileModel>,
    name: Seq<char>,
    backend: Seq<char>,
    i: int,
)
    requires
        is_first_match(ps, name, i),
    ensures
        ps.update(i, ProfileModel { name, backend }).len() == ps.len(),
        forall|j: int|
            0 <= j < ps.len() ==> #[trigger] ps.update(i, ProfileModel { name, backend })[j].name
                == ps[j].name,
        forall|j: int|
            0 <= j < ps.len() && j != i ==> #[trigger] ps.update(i, ProfileModel { name, backend })[j]
                == ps[j],
        ps.update(i, ProfileModel { name, backend })[i].backend == backend,
{
}

/// Where names are unique, deleting a stored name removes exactly the one
/// entry that carries it, and the others keep their relative order.
pub proof fn lemma_delete_removes_one(ps: Seq<ProfileModel>, name: Seq<char>, i: int)
    requires
        names_unique(ps),
        is_first_match(ps, name, i),
    ensures
        without(ps, name) == ps.remove(i),
        without(ps, name).len() == ps.len() - 1,
        !has_name(without(ps, name), name),
{
    let front = ps.subrange(0, i);
    let back = ps.subrange(i + 1, ps.len() as int);
    let mid = seq![ps[i]];
    assert(ps =~= front + mid + back);
    assert forall|k: int| 0 <= k < front.len() implies #[trigger] front[k].name != name by {
        assert(ps[k].name != name);
    }
    assert forall|k: int| 0 <= k < back.len() implies #[trigger] back[k].name != name by {
        assert(ps[i + 1 + k].name != ps[i].name);
    }
    lemma_without_absent(front, name);
    lemma_without_absent(back, name);
    reveal(Seq::filter);
    assert(mid =~= Seq::<ProfileModel>::empty().push(ps[i]));
    Seq::<ProfileModel>::empty().lemma_filter_push(ps[i], other_than(name));
    assert(Seq::<ProfileModel>::empty().filter(other_than(name)) =~= Seq::<ProfileModel>::empty());
    assert(mid.filter(other_than(name)) =~= Seq::<ProfileModel>::empty());
    Seq::filter_distributes_over_add(front + mid, back, other_than(name));
    Seq::filter_distributes_over_add(front, mid, other_than(name));
    assert(without(ps, name) =~= front + back);
    assert(ps.remove(i) =~= front + back);
    assert forall|k: int| 0 <= k < (front + back).len() implies #[trigger] (front + back)[k].name
        != name by {
        if k < front.len() {
            assert(front[k].name != name);
        } else {
            assert(back[k - front.len()].name != name);
        }
    }
}

} // verus!
