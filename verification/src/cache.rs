//! The cache: one partition per entity kind, each a mapping from a
//! record's identifier to the record.
//!
//! A partition is replaced wholesale; before a record is installed the
//! cycle-break transform is applied, so stored data is already safe to
//! serialize. When two records of one batch share an identifier the later
//! one wins. Each partition's model is the map `install_map` of the batch
//! it was last replaced with, so every read can be related exactly to that
//! batch.

use vstd::prelude::*;
use crate::model::{install_record, record_model, RecordModel};
use crate::types::{Group, Member, NotionData, NotionDataType};

verus! {

broadcast use vstd::map::group_map_axioms, vstd::set::group_set_axioms;

/// The models of a sequence of records, in order.
pub open spec fn models_of(s: Seq<NotionData>) -> Seq<RecordModel>
    decreases s,
{
    if s.len() == 0 {
        Seq::empty()
    } else {
        models_of(s.drop_last()).push(record_model(s.last()))
    }
}

/// The map a sequence of record models describes, keyed by identifier;
/// a later record with the same identifier overwrites an earlier one.
pub open spec fn map_of_models(ms: Seq<RecordModel>) -> Map<Seq<char>, RecordModel>
    decreases ms,
{
    if ms.len() == 0 {
        Map::empty()
    } else {
        map_of_models(ms.drop_last()).insert(ms.last().id(), ms.last())
    }
}

/// The map a replace call installs for a batch: the cycle-break transform
/// applied to every record, later records overwriting earlier ones.
pub open spec fn install_map(ms: Seq<RecordModel>) -> Map<Seq<char>, RecordModel>
    decreases ms,
{
    if ms.len() == 0 {
        Map::empty()
    } else {
        install_map(ms.drop_last()).insert(ms.last().id(), install_record(ms.last()))
    }
}

/// No two records of the sequence share an identifier.
pub open spec fn distinct_ids(ms: Seq<RecordModel>) -> bool {
    forall|i: int, j: int| 0 <= i < j < ms.len() ==> ms[i].id() != ms[j].id()
}

pub proof fn lemma_models_of_index(s: Seq<NotionData>)
    ensures
        models_of(s).len() == s.len(),
        forall|i: int| 0 <= i < s.len() ==> models_of(s)[i] == record_model(s[i]),
    decreases s,
{
    if s.len() > 0 {
        lemma_models_of_index(s.drop_last());
    }
}

/// An identifier in the map is carried by some record of the sequence.
pub proof fn lemma_map_of_models_contains(ms: Seq<RecordModel>)
    ensures
        forall|id: Seq<char>|
            #[trigger] map_of_models(ms).contains_key(id) ==> exists|i: int|
                0 <= i < ms.len() && #[trigger] ms[i].id() == id,
    decreases ms,
{
    if ms.len() > 0 {
        lemma_map_of_models_contains(ms.drop_last());
        assert forall|id: Seq<char>| #[trigger] map_of_models(ms).contains_key(id) implies exists|i: int|
            0 <= i < ms.len() && #[trigger] ms[i].id() == id by {
            if id == ms.last().id() {
                assert(ms[ms.len() - 1].id() == id);
            } else {
                assert(map_of_models(ms.drop_last()).contains_key(id));
                let i = choose|i: int| 0 <= i < ms.drop_last().len() && #[trigger] ms.drop_last()[i].id() == id;
                assert(ms[i].id() == id);
            }
        }
    }
}

/// With distinct identifiers, each record of the sequence is the value its
/// identifier maps to.
pub proof fn lemma_map_of_models_values(ms: Seq<RecordModel>)
    requires
        distinct_ids(ms),
    ensures
        forall|i: int| 0 <= i < ms.len() ==> map_of_models(ms).contains_key(
            #[trigger] ms[i].id(),
        ) && map_of_models(ms)[ms[i].id()] == ms[i],
    decreases ms,
{
    if ms.len() > 0 {
        lemma_map_of_models_values(ms.drop_last());
        assert forall|i: int| 0 <= i < ms.len() implies map_of_models(ms).contains_key(
            #[trigger] ms[i].id(),
        ) && map_of_models(ms)[ms[i].id()] == ms[i] by {
            if i < ms.len() - 1 {
                assert(ms.drop_last()[i] == ms[i]);
                assert(ms.drop_last()[i].id() == ms[i].id());
            }
        }
    }
}

/// With distinct identifiers, the map has as many entries as the sequence.
pub proof fn lemma_map_of_models_len(ms: Seq<RecordModel>)
    requires
        distinct_ids(ms),
    ensures
        map_of_models(ms).dom().finite(),
        map_of_models(ms).dom().len() == ms.len(),
    decreases ms,
{
    if ms.len() > 0 {
        assert(forall|i: int| 0 <= i < ms.drop_last().len() ==> #[trigger] ms.drop_last()[i]
            == ms[i]);
        lemma_map_of_models_len(ms.drop_last());
        lemma_map_of_models_contains(ms.drop_last());
        if map_of_models(ms.drop_last()).contains_key(ms.last().id()) {
            let i = choose|i: int|
                0 <= i < ms.drop_last().len() && #[trigger] ms.drop_last()[i].id()
                    == ms.last().id();
            assert(ms[i].id() == ms[ms.len() - 1].id());
            assert(false);
        }
    }
}

pub proof fn lemma_map_of_models_push(ms: Seq<RecordModel>, m: RecordModel)
    ensures
        map_of_models(ms.push(m)) == map_of_models(ms).insert(m.id(), m),
{
    assert(ms.push(m).drop_last() =~= ms);
}

pub proof fn lemma_install_map_push(ms: Seq<RecordModel>, m: RecordModel)
    ensures
        install_map(ms.push(m)) == install_map(ms).insert(m.id(), install_record(m)),
{
    assert(ms.push(m).drop_last() =~= ms);
}

/// The transform does not touch a record's identifier.
pub proof fn lemma_install_record_id(m: RecordModel)
    ensures
        install_record(m).id() == m.id(),
{
}

/// An identifier in the installed map is carried by some record of the
/// batch.
pub proof fn lemma_install_map_contains(ms: Seq<RecordModel>)
    ensures
        forall|id: Seq<char>|
            #[trigger] install_map(ms).contains_key(id) ==> exists|i: int|
                0 <= i < ms.len() && #[trigger] ms[i].id() == id,
    decreases ms,
{
    if ms.len() > 0 {
        lemma_install_map_contains(ms.drop_last());
        assert forall|id: Seq<char>| #[trigger] install_map(ms).contains_key(id) implies exists|i: int|
            0 <= i < ms.len() && #[trigger] ms[i].id() == id by {
            if id == ms.last().id() {
                assert(ms[ms.len() - 1].id() == id);
            } else {
                assert(install_map(ms.drop_last()).contains_key(id));
                let i = choose|i: int| 0 <= i < ms.drop_last().len() && #[trigger] ms.drop_last()[i].id() == id;
                assert(ms[i].id() == id);
            }
        }
    }
}

/// With distinct identifiers, each batch record's identifier maps to that
/// record, transformed.
pub proof fn lemma_install_map_values(ms: Seq<RecordModel>)
    requires
        distinct_ids(ms),
    ensures
        forall|i: int| 0 <= i < ms.len() ==> install_map(ms).contains_key(#[trigger] ms[i].id())
            && install_map(ms)[ms[i].id()] == install_record(ms[i]),
    decreases ms,
{
    if ms.len() > 0 {
        lemma_install_map_values(ms.drop_last());
        assert forall|i: int| 0 <= i < ms.len() implies install_map(ms).contains_key(
            #[trigger] ms[i].id(),
        ) && install_map(ms)[ms[i].id()] == install_record(ms[i]) by {
            if i < ms.len() - 1 {
                assert(ms.drop_last()[i] == ms[i]);
                assert(ms.drop_last()[i].id() == ms[i].id());
            }
        }
    }
}

/// With distinct identifiers, the installed map has as many entries as
/// the batch.
pub proof fn lemma_install_map_len(ms: Seq<RecordModel>)
    requires
        distinct_ids(ms),
    ensures
        install_map(ms).dom().finite(),
        install_map(ms).dom().len() == ms.len(),
    decreases ms,
{
    if ms.len() > 0 {
        assert(forall|i: int| 0 <= i < ms.drop_last().len() ==> #[trigger] ms.drop_last()[i]
            == ms[i]);
        lemma_install_map_len(ms.drop_last());
        lemma_install_map_contains(ms.drop_last());
        if install_map(ms.drop_last()).contains_key(ms.last().id()) {
            let i = choose|i: int|
                0 <= i < ms.drop_last().len() && #[trigger] ms.drop_last()[i].id()
                    == ms.last().id();
            assert(ms[i].id() == ms[ms.len() - 1].id());
            assert(false);
        }
    }
}

/// Every value of the installed map is the transform of some batch
/// record that carries its identifier.
pub proof fn lemma_install_map_image(ms: Seq<RecordModel>)
    ensures
        forall|id: Seq<char>|
            #[trigger] install_map(ms).contains_key(id) ==> exists|i: int|
                0 <= i < ms.len() && #[trigger] ms[i].id() == id && install_map(ms)[id]
                    == install_record(ms[i]),
    decreases ms,
{
    if ms.len() > 0 {
        lemma_install_map_image(ms.drop_last());
        assert forall|id: Seq<char>| #[trigger] install_map(ms).contains_key(id) implies exists|i: int|
            0 <= i < ms.len() && #[trigger] ms[i].id() == id && install_map(ms)[id]
                == install_record(ms[i]) by {
            if id == ms.last().id() {
                assert(ms[ms.len() - 1].id() == id && install_map(ms)[id] == install_record(
                    ms[ms.len() - 1],
                ));
            } else {
                assert(install_map(ms.drop_last()).contains_key(id));
                let i = choose|i: int|
                    0 <= i < ms.drop_last().len() && #[trigger] ms.drop_last()[i].id() == id
                        && install_map(ms.drop_last())[id] == install_record(ms.drop_last()[i]);
                assert(ms[i].id() == id && install_map(ms)[id] == install_record(ms[i]));
            }
        }
    }
}

/// Overwriting the record at position `j` with one that carries the same
/// identifier is, on the map, one insert at that identifier.
pub proof fn lemma_map_of_models_update(ms: Seq<RecordModel>, j: int, m: RecordModel)
    requires
        distinct_ids(ms),
        0 <= j < ms.len(),
        m.id() == ms[j].id(),
    ensures
        map_of_models(ms.update(j, m)) == map_of_models(ms).insert(m.id(), m),
    decreases ms.len(),
{
    let s2 = ms.update(j, m);
    if j == ms.len() - 1 {
        assert(s2.drop_last() =~= ms.drop_last());
        assert(s2.last() == m);
        assert(map_of_models(ms.drop_last()).insert(m.id(), m) =~= map_of_models(
            ms.drop_last(),
        ).insert(ms.last().id(), ms.last()).insert(m.id(), m));
    } else {
        assert(forall|i: int| 0 <= i < ms.drop_last().len() ==> #[trigger] ms.drop_last()[i]
            == ms[i]);
        lemma_map_of_models_update(ms.drop_last(), j, m);
        assert(s2.drop_last() =~= ms.drop_last().update(j, m));
        assert(s2.last() == ms.last());
        assert(m.id() != ms.last().id());
        assert(map_of_models(ms.drop_last()).insert(m.id(), m).insert(ms.last().id(), ms.last())
            =~= map_of_models(ms.drop_last()).insert(ms.last().id(), ms.last()).insert(
            m.id(),
            m,
        ));
    }
}

/// The ghost content of the cache: one identifier-to-record map per kind.
pub ghost struct CacheModel {
    pub members: Map<Seq<char>, RecordModel>,
    pub groups: Map<Seq<char>, RecordModel>,
    pub clubs: Map<Seq<char>, RecordModel>,
    pub events: Map<Seq<char>, RecordModel>,
    pub articles: Map<Seq<char>, RecordModel>,
    pub sponsors: Map<Seq<char>, RecordModel>,
}

impl CacheModel {
    /// The partition for one entity kind.
    pub open spec fn partition(self, k: NotionDataType) -> Map<Seq<char>, RecordModel> {
        match k {
            NotionDataType::Member => self.members,
            NotionDataType::Group => self.groups,
            NotionDataType::Club => self.clubs,
            NotionDataType::Event => self.events,
            NotionDataType::Article => self.articles,
            NotionDataType::Sponsor => self.sponsors,
        }
    }
}

/// Storage for all six partitions. Access is plain; a caller that shares
/// the cache across threads guards it with a reader/writer lock and holds
/// the write side exactly for the duration of `update`.
pub struct CacheStorage {
    members: Vec<NotionData>,
    groups: Vec<NotionData>,
    clubs: Vec<NotionData>,
    events: Vec<NotionData>,
    articles: Vec<NotionData>,
    sponsors: Vec<NotionData>,
}

impl View for CacheStorage {
    type V = CacheModel;

    closed spec fn view(&self) -> CacheModel {
        CacheModel {
            members: map_of_models(models_of(self.members@)),
            groups: map_of_models(models_of(self.groups@)),
            clubs: map_of_models(models_of(self.clubs@)),
            events: map_of_models(models_of(self.events@)),
            articles: map_of_models(models_of(self.articles@)),
            sponsors: map_of_models(models_of(self.sponsors@)),
        }
    }
}

fn record_id_ref(d: &NotionData) -> (r: &String)
    ensures
        r@ == record_model(*d).id(),
{
    match d {
        NotionData::Member(m) => &m.id,
        NotionData::Group(g) => &g.id,
        NotionData::Club(c) => &c.id,
        NotionData::Event(e) => &e.id,
        NotionData::Article(a) => &a.id,
        NotionData::Sponsor(s) => &s.id,
    }
}

fn lookup_in(part: &Vec<NotionData>, id: &str) -> (r: Option<NotionData>)
    requires
        distinct_ids(models_of(part@)),
    ensures
        match r {
            Option::Some(d) => map_of_models(models_of(part@)).contains_key(id@)
                && record_model(d) == map_of_models(models_of(part@))[id@],
            Option::None => !map_of_models(models_of(part@)).contains_key(id@),
        },
{
    let key: String = String::from_str(id);
    let mut j: usize = 0;
    while j < part.len()
        invariant
            j <= part@.len(),
            key@ == id@,
            distinct_ids(models_of(part@)),
            forall|i: int| 0 <= i < j ==> record_model(part@[i]).id() != id@,
        decreases part@.len() - j,
    {
        let rid: &String = record_id_ref(&part[j]);
        if *rid == key {
            proof {
                lemma_models_of_index(part@);
                lemma_map_of_models_values(models_of(part@));
                assert(models_of(part@)[j as int].id() == id@);
            }
            return Option::Some(part[j].clone());
        }
        j += 1;
    }
    proof {
        lemma_models_of_index(part@);
        lemma_map_of_models_contains(models_of(part@));
    }
    Option::None
}

fn list_in(part: &Vec<NotionData>) -> (r: Vec<NotionData>)
    requires
        distinct_ids(models_of(part@)),
    ensures
        ({
            let m = map_of_models(models_of(part@));
            &&& r@.len() == m.dom().len()
            &&& distinct_ids(models_of(r@))
            &&& models_of(r@).len() == r@.len()
            &&& forall|i: int| 0 <= i < r@.len() ==> m.contains_key(
                #[trigger] models_of(r@)[i].id(),
            ) && m[models_of(r@)[i].id()] == models_of(r@)[i]
            &&& forall|id: Seq<char>| #[trigger] m.contains_key(id) ==> exists|i: int|
                0 <= i < r@.len() && #[trigger] models_of(r@)[i].id() == id
        }),
{
    let mut out: Vec<NotionData> = Vec::new();
    let mut j: usize = 0;
    while j < part.len()
        invariant
            j <= part@.len(),
            out@.len() == j,
            forall|i: int| 0 <= i < j ==> record_model(out@[i]) == record_model(part@[i]),
        decreases part@.len() - j,
    {
        out.push(part[j].clone());
        j += 1;
    }
    proof {
        lemma_models_of_index(out@);
        lemma_models_of_index(part@);
        assert(models_of(out@) =~= models_of(part@));
        lemma_map_of_models_values(models_of(part@));
        lemma_map_of_models_contains(models_of(part@));
        lemma_map_of_models_len(models_of(part@));
    }
    out
}

fn clear_groups(gs: Vec<Group>) -> (r: Vec<Group>)
    ensures
        crate::model::group_seq_model(r@) == crate::model::group_seq_model(gs@).map_values(
            |g: crate::model::GroupModel| crate::model::clear_group_ref(g),
        ),
{
    let ghost orig = gs@;
    let mut input = gs;
    let mut out: Vec<Group> = Vec::new();
    while input.len() > 0
        invariant
            orig.len() == out@.len() + input@.len(),
            input@ == orig.subrange(out@.len() as int, orig.len() as int),
            forall|i: int| 0 <= i < out@.len() ==> crate::model::group_model(out@[i])
                == crate::model::clear_group_ref(crate::model::group_model(orig[i])),
        decreases input@.len(),
    {
        let ghost k = out@.len() as int;
        let g = input.remove(0);
        proof {
            assert(g == orig[k]);
            assert(input@ =~= orig.subrange(k + 1, orig.len() as int));
        }
        out.push(Group { id: g.id, name: g.name, description: g.description, members: Option::None });
    }
    proof {
        crate::model::lemma_group_seq_model_index(out@);
        crate::model::lemma_group_seq_model_index(orig);
        assert(crate::model::group_seq_model(out@) =~= crate::model::group_seq_model(
            orig,
        ).map_values(|g: crate::model::GroupModel| crate::model::clear_group_ref(g)));
    }
    out
}

fn clear_members(ms: Vec<Member>) -> (r: Vec<Member>)
    ensures
        crate::model::member_seq_model(r@) == crate::model::member_seq_model(ms@).map_values(
            |m: crate::model::MemberModel| crate::model::clear_member_ref(m),
        ),
{
    let ghost orig = ms@;
    let mut input = ms;
    let mut out: Vec<Member> = Vec::new();
    while input.len() > 0
        invariant
            orig.len() == out@.len() + input@.len(),
            input@ == orig.subrange(out@.len() as int, orig.len() as int),
            forall|i: int| 0 <= i < out@.len() ==> crate::model::member_model(out@[i])
                == crate::model::clear_member_ref(crate::model::member_model(orig[i])),
        decreases input@.len(),
    {
        let ghost k = out@.len() as int;
        let m = input.remove(0);
        proof {
            assert(m == orig[k]);
            assert(input@ =~= orig.subrange(k + 1, orig.len() as int));
        }
        out.push(
            Member {
                id: m.id,
                avatar: m.avatar,
                name: m.name,
                nickname: m.nickname,
                groups: Option::None,
                description: m.description,
                club: m.club,
                club_positions: m.club_positions,
            },
        );
    }
    proof {
        crate::model::lemma_member_seq_model_index(out@);
        crate::model::lemma_member_seq_model_index(orig);
        assert(crate::model::member_seq_model(out@) =~= crate::model::member_seq_model(
            orig,
        ).map_values(|m: crate::model::MemberModel| crate::model::clear_member_ref(m)));
    }
    out
}

/// Applies the cycle-break transform to one record before it is stored.
fn install_record_exec(d: NotionData) -> (r: NotionData)
    ensures
        record_model(r) == install_record(record_model(d)),
{
    match d {
        NotionData::Member(m) => {
            let groups: Option<Vec<Group>> = match m.groups {
                Option::None => Option::None,
                Option::Some(gs) => Option::Some(clear_groups(gs)),
            };
            NotionData::Member(
                Member {
                    id: m.id,
                    avatar: m.avatar,
                    name: m.name,
                    nickname: m.nickname,
                    groups,
                    description: m.description,
                    club: m.club,
                    club_positions: m.club_positions,
                },
            )
        },
        NotionData::Group(g) => {
            let members: Option<Vec<Member>> = match g.members {
                Option::None => Option::None,
                Option::Some(ms) => Option::Some(clear_members(ms)),
            };
            NotionData::Group(
                Group { id: g.id, name: g.name, description: g.description, members },
            )
        },
        other => other,
    }
}

fn find_id(part: &Vec<NotionData>, d: &NotionData) -> (r: Option<usize>)
    ensures
        match r {
            Option::Some(j) => j < part@.len() && record_model(part@[j as int]).id()
                == record_model(*d).id(),
            Option::None => forall|i: int| 0 <= i < part@.len() ==> record_model(
                part@[i],
            ).id() != record_model(*d).id(),
        },
{
    let key: &String = record_id_ref(d);
    let mut j: usize = 0;
    while j < part.len()
        invariant
            j <= part@.len(),
            key@ == record_model(*d).id(),
            forall|i: int| 0 <= i < j ==> record_model(part@[i]).id() != record_model(*d).id(),
        decreases part@.len() - j,
    {
        let rid: &String = record_id_ref(&part[j]);
        if *rid == *key {
            return Option::Some(j);
        }
        j += 1;
    }
    Option::None
}

/// Installs one record into a partition: the record with the same
/// identifier is overwritten if present, else the record is appended.
fn upsert(part: &mut Vec<NotionData>, d: NotionData)
    requires
        distinct_ids(models_of(old(part)@)),
    ensures
        distinct_ids(models_of(final(part)@)),
        map_of_models(models_of(final(part)@)) == map_of_models(models_of(old(part)@)).insert(
            record_model(d).id(),
            record_model(d),
        ),
{
    let found = find_id(part, &d);
    let ghost pre = part@;
    match found {
        Option::Some(j) => {
            part.remove(j);
            part.insert(j, d);
            proof {
                assert(part@ =~= pre.update(j as int, d));
                lemma_models_of_index(pre);
                lemma_models_of_index(part@);
                assert(models_of(part@) =~= models_of(pre).update(
                    j as int,
                    record_model(d),
                ));
                lemma_map_of_models_update(models_of(pre), j as int, record_model(d));
                assert forall|a: int, b: int|
                    0 <= a < b < models_of(part@).len() implies models_of(part@)[a].id()
                    != models_of(part@)[b].id() by {
                    assert(models_of(pre)[a].id() != models_of(pre)[b].id());
                }
            }
        },
        Option::None => {
            part.push(d);
            proof {
                lemma_models_of_index(pre);
                lemma_models_of_index(part@);
                assert(models_of(part@) =~= models_of(pre).push(record_model(d)));
                lemma_map_of_models_push(models_of(pre), record_model(d));
                assert forall|a: int, b: int|
                    0 <= a < b < models_of(part@).len() implies models_of(part@)[a].id()
                    != models_of(part@)[b].id() by {
                    if b < models_of(pre).len() {
                        assert(models_of(pre)[a].id() != models_of(pre)[b].id());
                    }
                }
            }
        },
    }
}

/// Discards a partition's contents and installs a whole batch, applying
/// the cycle-break transform to each record, later records overwriting
/// earlier ones with the same identifier.
fn replace_partition(part: &mut Vec<NotionData>, new_data: Vec<NotionData>)
    ensures
        distinct_ids(models_of(final(part)@)),
        map_of_models(models_of(final(part)@)) == install_map(models_of(new_data@)),
{
    let ghost orig = models_of(new_data@);
    part.clear();
    let mut input = new_data;
    let ghost mut k: int = 0;
    proof {
        lemma_models_of_index(input@);
        assert(models_of(part@) =~= Seq::<RecordModel>::empty());
        assert(orig.take(0) =~= Seq::<RecordModel>::empty());
    }
    while input.len() > 0
        invariant
            0 <= k,
            k + input@.len() == orig.len(),
            models_of(input@) == orig.subrange(k, orig.len() as int),
            distinct_ids(models_of(part@)),
            map_of_models(models_of(part@)) == install_map(orig.take(k)),
        decreases input@.len(),
    {
        let ghost pre = input@;
        let d = input.remove(0);
        proof {
            lemma_models_of_index(pre);
            lemma_models_of_index(input@);
            assert(models_of(pre)[0] == record_model(pre[0]));
            assert(models_of(input@) =~= models_of(pre).drop_first());
            assert(models_of(input@) =~= orig.subrange(k + 1, orig.len() as int));
            assert(record_model(d) == orig[k]);
        }
        let d2 = install_record_exec(d);
        upsert(part, d2);
        proof {
            lemma_install_record_id(record_model(d));
            assert(orig.take(k + 1) =~= orig.take(k).push(orig[k]));
            lemma_install_map_push(orig.take(k), orig[k]);
            k = k + 1;
        }
    }
    proof {
        assert(orig.take(k) =~= orig);
    }
}

impl CacheStorage {
    /// Every partition holds pairwise distinct identifiers, so a lookup's
    /// first hit is the partition map's value.
    pub closed spec fn wf(&self) -> bool {
        &&& distinct_ids(models_of(self.members@))
        &&& distinct_ids(models_of(self.groups@))
        &&& distinct_ids(models_of(self.clubs@))
        &&& distinct_ids(models_of(self.events@))
        &&& distinct_ids(models_of(self.articles@))
        &&& distinct_ids(models_of(self.sponsors@))
    }

    /// A cache with one empty partition per entity kind, so a lookup
    /// against a never-refreshed kind answers "not found" rather than
    /// failing.
    pub fn new() -> (res: CacheStorage)
        ensures
            res.wf(),
            forall|k: NotionDataType| res@.partition(k) == Map::<Seq<char>, RecordModel>::empty(),
    {
        let res = CacheStorage {
            members: Vec::new(),
            groups: Vec::new(),
            clubs: Vec::new(),
            events: Vec::new(),
            articles: Vec::new(),
            sponsors: Vec::new(),
        };
        res
    }

    /// Point lookup: the record stored under `id` in the partition for
    /// `data_type`, or `None` when the identifier is absent.
    pub fn request(&self, id: &str, data_type: &NotionDataType) -> (r: Option<NotionData>)
        requires
            self.wf(),
        ensures
            match r {
                Option::Some(d) => self@.partition(*data_type).contains_key(id@)
                    && record_model(d) == self@.partition(*data_type)[id@],
                Option::None => !self@.partition(*data_type).contains_key(id@),
            },
    {
        match data_type {
            NotionDataType::Member => lookup_in(&self.members, id),
            NotionDataType::Group => lookup_in(&self.groups, id),
            NotionDataType::Club => lookup_in(&self.clubs, id),
            NotionDataType::Event => lookup_in(&self.events, id),
            NotionDataType::Article => lookup_in(&self.articles, id),
            NotionDataType::Sponsor => lookup_in(&self.sponsors, id),
        }
    }

    /// Bulk listing: one copy of every record in the partition for
    /// `data_type`, in unspecified order; exactly the partition's
    /// contents, nothing else.
    pub fn request_all(&self, data_type: &NotionDataType) -> (r: Vec<NotionData>)
        requires
            self.wf(),
        ensures
            r@.len() == self@.partition(*data_type).dom().len(),
            distinct_ids(models_of(r@)),
            forall|i: int| 0 <= i < r@.len() ==> self@.partition(*data_type).contains_key(
                #[trigger] models_of(r@)[i].id(),
            ) && self@.partition(*data_type)[models_of(r@)[i].id()] == models_of(r@)[i],
            forall|id: Seq<char>| #[trigger] self@.partition(*data_type).contains_key(id)
                ==> exists|i: int| 0 <= i < r@.len() && #[trigger] models_of(r@)[i].id() == id,
    {
        match data_type {
            NotionDataType::Member => list_in(&self.members),
            NotionDataType::Group => list_in(&self.groups),
            NotionDataType::Club => list_in(&self.clubs),
            NotionDataType::Event => list_in(&self.events),
            NotionDataType::Article => list_in(&self.articles),
            NotionDataType::Sponsor => list_in(&self.sponsors),
        }
    }

    /// Atomic whole-partition replacement: discards the partition for
    /// `data_type` and installs `new_data` keyed by each record's own
    /// identifier, with the cycle-break transform applied and later
    /// records overwriting earlier ones. No other partition changes.
    pub fn update(&mut self, data_type: &NotionDataType, new_data: Vec<NotionData>)
        requires
            old(self).wf(),
        ensures
            final(self).wf(),
            final(self)@.partition(*data_type) == install_map(models_of(new_data@)),
            forall|k: NotionDataType| k != *data_type ==> final(self)@.partition(k) == old(
                self,
            )@.partition(k),
    {
        match data_type {
            NotionDataType::Member => replace_partition(&mut self.members, new_data),
            NotionDataType::Group => replace_partition(&mut self.groups, new_data),
            NotionDataType::Club => replace_partition(&mut self.clubs, new_data),
            NotionDataType::Event => replace_partition(&mut self.events, new_data),
            NotionDataType::Article => replace_partition(&mut self.articles, new_data),
            NotionDataType::Sponsor => replace_partition(&mut self.sponsors, new_data),
        }
    }
}

} // verus!
