//! The cache's laws, each proved once and for all over the partition
//! maps that `CacheStorage::update` installs and that `request` and
//! `request_all` read.

use vstd::prelude::*;
use crate::cache::{
    distinct_ids, install_map, lemma_install_map_contains, lemma_install_map_image,
    lemma_install_map_len, lemma_install_map_values,
};
use crate::model::{install_record, RecordModel};

verus! {

broadcast use vstd::map::group_map_axioms, vstd::set::group_set_axioms;

/// After a partition is replaced with a batch whose identifiers are
/// pairwise distinct, the partition holds exactly the batch's records:
/// each batch record, transformed by the cycle-break, stands under its
/// own identifier, and an identifier no batch record carries is absent.
/// `request` and `request_all` read exactly this map.
pub proof fn lemma_replace_contents(ms: Seq<RecordModel>)
    requires
        distinct_ids(ms),
    ensures
        forall|i: int| 0 <= i < ms.len() ==> install_map(ms).contains_key(#[trigger] ms[i].id())
            && install_map(ms)[ms[i].id()] == install_record(ms[i]),
        forall|id: Seq<char>| #[trigger] install_map(ms).contains_key(id) ==> exists|i: int|
            0 <= i < ms.len() && #[trigger] ms[i].id() == id,
        install_map(ms).dom().finite(),
        install_map(ms).dom().len() == ms.len(),
{
    lemma_install_map_values(ms);
    lemma_install_map_contains(ms);
    lemma_install_map_len(ms);
}

/// Replacing a partition twice in a row with the same batch leaves it
/// observably unchanged: what a replace installs is a function of the
/// batch alone, so the second replace installs the very map the first
/// did, whatever stood in between.
pub proof fn lemma_replace_idempotent(
    after_first: Map<Seq<char>, RecordModel>,
    after_second: Map<Seq<char>, RecordModel>,
    ms: Seq<RecordModel>,
)
    requires
        after_first == install_map(ms),
        after_second == install_map(ms),
    ensures
        after_first == after_second,
{
}

/// Cycle-break invariant: whatever batch a partition was replaced with,
/// a stored person's embedded groups list no members of their own, and a
/// stored group's embedded people list no groups of their own, so
/// serializing either record meets no unbounded nesting.
pub proof fn lemma_cycle_break(ms: Seq<RecordModel>, id: Seq<char>)
    requires
        install_map(ms).contains_key(id),
    ensures
        match install_map(ms)[id] {
            RecordModel::Member(m) => match m.groups {
                Option::Some(gs) => forall|i: int|
                    0 <= i < gs.len() ==> (#[trigger] gs[i]).members is None,
                Option::None => true,
            },
            RecordModel::Group(g) => match g.members {
                Option::Some(mbs) => forall|i: int|
                    0 <= i < mbs.len() ==> (#[trigger] mbs[i]).groups is None,
                Option::None => true,
            },
            _ => true,
        },
{
    lemma_install_map_image(ms);
    let i = choose|i: int|
        0 <= i < ms.len() && #[trigger] ms[i].id() == id && install_map(ms)[id] == install_record(
            ms[i],
        );
    assert(install_map(ms)[id] == install_record(ms[i]));
}

/// Last-write-wins: replacing a partition with a two-record batch whose
/// records share an identifier installs the later record alone.
pub proof fn lemma_last_write_wins(a: RecordModel, b: RecordModel)
    requires
        a.id() == b.id(),
    ensures
        install_map(seq![a, b]).contains_key(b.id()),
        install_map(seq![a, b])[b.id()] == install_record(b),
        install_map(seq![a, b]).dom() =~= set![b.id()],
{
    reveal_with_fuel(install_map, 3);
    let s = seq![a, b];
    assert(s.drop_last() =~= seq![a]);
    assert(seq![a].drop_last() =~= Seq::<RecordModel>::empty());
    assert(s.last() == b);
    assert(seq![a].last() == a);
    assert(install_map(s) == Map::<Seq<char>, RecordModel>::empty().insert(
        a.id(),
        install_record(a),
    ).insert(b.id(), install_record(b)));
    assert forall|x: Seq<char>| install_map(s).dom().contains(x) implies set![b.id()].contains(x) by {
        assert(x == b.id());
    }
    assert(install_map(s).dom().contains(b.id()));
}

} // verus!
