//! Mathematical models of the entity shapes.
//!
//! Every executable record type has a ghost counterpart whose fields are
//! sequences and maps; all contracts in this crate are stated over these
//! models, so that two records with the same content are interchangeable
//! whatever their allocations look like.

use vstd::prelude::*;
use crate::types::{Article, Club, Event, EventPeriod, Group, Member, NotionData, Sponsor};

verus! {

/// Model of an `EventPeriod`.
pub ghost struct PeriodModel {
    pub start: Seq<char>,
    pub end: Seq<char>,
}

/// Model of a `Member`.
pub ghost struct MemberModel {
    pub id: Seq<char>,
    pub avatar: Seq<char>,
    pub name: Seq<char>,
    pub nickname: Seq<char>,
    pub groups: Option<Seq<GroupModel>>,
    pub description: Seq<char>,
    pub club: Option<ClubModel>,
    pub club_positions: Seq<Seq<char>>,
}

/// Model of a `Group`.
pub ghost struct GroupModel {
    pub id: Seq<char>,
    pub name: Seq<char>,
    pub description: Seq<char>,
    pub members: Option<Seq<MemberModel>>,
}

/// Model of a `Club`.
pub ghost struct ClubModel {
    pub id: Seq<char>,
    pub name: Seq<char>,
    pub description: Seq<char>,
    pub school: Seq<char>,
    pub instagram_id: Seq<char>,
    pub icon: Seq<char>,
}

/// Model of an `Event`.
pub ghost struct EventModel {
    pub id: Seq<char>,
    pub date: PeriodModel,
    pub name: Seq<char>,
    pub description: Seq<char>,
    pub thumbnail: Seq<char>,
    pub principal: Seq<MemberModel>,
}

/// Model of an `Article`.
pub ghost struct ArticleModel {
    pub id: Seq<char>,
    pub title: Seq<char>,
    pub content: Seq<char>,
    pub description: Seq<char>,
    pub tags: Seq<Seq<char>>,
    pub created_at: Seq<char>,
    pub updated_at: Seq<char>,
}

/// Model of a `Sponsor`.
pub ghost struct SponsorModel {
    pub id: Seq<char>,
    pub name: Seq<char>,
    pub icon: Seq<char>,
    pub url: Seq<char>,
    pub description: Seq<char>,
}

/// Model of a `NotionData` record, one variant per entity kind.
pub ghost enum RecordModel {
    Member(MemberModel),
    Group(GroupModel),
    Club(ClubModel),
    Event(EventModel),
    Article(ArticleModel),
    Sponsor(SponsorModel),
}

impl RecordModel {
    /// The identifier a record is keyed by in its partition.
    pub open spec fn id(self) -> Seq<char> {
        match self {
            RecordModel::Member(m) => m.id,
            RecordModel::Group(g) => g.id,
            RecordModel::Club(c) => c.id,
            RecordModel::Event(e) => e.id,
            RecordModel::Article(a) => a.id,
            RecordModel::Sponsor(s) => s.id,
        }
    }
}

pub open spec fn period_model(p: EventPeriod) -> PeriodModel {
    PeriodModel { start: p.start@, end: p.end@ }
}

pub open spec fn club_model(c: Club) -> ClubModel {
    ClubModel {
        id: c.id@,
        name: c.name@,
        description: c.description@,
        school: c.school@,
        instagram_id: c.instagram_id@,
        icon: c.icon@,
    }
}

pub open spec fn article_model(a: Article) -> ArticleModel {
    ArticleModel {
        id: a.id@,
        title: a.title@,
        content: a.content@,
        description: a.description@,
        tags: a.tags.deep_view(),
        created_at: a.created_at@,
        updated_at: a.updated_at@,
    }
}

pub open spec fn sponsor_model(s: Sponsor) -> SponsorModel {
    SponsorModel {
        id: s.id@,
        name: s.name@,
        icon: s.icon@,
        url: s.url@,
        description: s.description@,
    }
}

pub open spec fn member_model(m: Member) -> MemberModel
    decreases m,
{
    MemberModel {
        id: m.id@,
        avatar: m.avatar@,
        name: m.name@,
        nickname: m.nickname@,
        groups: match m.groups {
            Option::None => Option::None,
            Option::Some(gs) => Option::Some(group_seq_model(gs@)),
        },
        description: m.description@,
        club: match m.club {
            Option::None => Option::None,
            Option::Some(c) => Option::Some(club_model(c)),
        },
        club_positions: m.club_positions.deep_view(),
    }
}

pub open spec fn group_seq_model(s: Seq<Group>) -> Seq<GroupModel>
    decreases s,
{
    if s.len() == 0 {
        Seq::empty()
    } else {
        group_seq_model(s.drop_last()).push(group_model(s.last()))
    }
}

pub open spec fn group_model(g: Group) -> GroupModel
    decreases g,
{
    GroupModel {
        id: g.id@,
        name: g.name@,
        description: g.description@,
        members: match g.members {
            Option::None => Option::None,
            Option::Some(ms) => Option::Some(member_seq_model(ms@)),
        },
    }
}

pub open spec fn member_seq_model(s: Seq<Member>) -> Seq<MemberModel>
    decreases s,
{
    if s.len() == 0 {
        Seq::empty()
    } else {
        member_seq_model(s.drop_last()).push(member_model(s.last()))
    }
}

pub open spec fn event_model(e: Event) -> EventModel {
    EventModel {
        id: e.id@,
        date: period_model(e.date),
        name: e.name@,
        description: e.description@,
        thumbnail: e.thumbnail@,
        principal: member_seq_model(e.principal@),
    }
}

pub open spec fn record_model(d: NotionData) -> RecordModel {
    match d {
        NotionData::Member(m) => RecordModel::Member(member_model(m)),
        NotionData::Group(g) => RecordModel::Group(group_model(g)),
        NotionData::Club(c) => RecordModel::Club(club_model(c)),
        NotionData::Event(e) => RecordModel::Event(event_model(e)),
        NotionData::Article(a) => RecordModel::Article(article_model(a)),
        NotionData::Sponsor(s) => RecordModel::Sponsor(sponsor_model(s)),
    }
}

pub proof fn lemma_group_seq_model_index(s: Seq<Group>)
    ensures
        group_seq_model(s).len() == s.len(),
        forall|i: int| 0 <= i < s.len() ==> group_seq_model(s)[i] == group_model(s[i]),
    decreases s,
{
    if s.len() > 0 {
        lemma_group_seq_model_index(s.drop_last());
    }
}

pub proof fn lemma_member_seq_model_index(s: Seq<Member>)
    ensures
        member_seq_model(s).len() == s.len(),
        forall|i: int| 0 <= i < s.len() ==> member_seq_model(s)[i] == member_model(s[i]),
    decreases s,
{
    if s.len() > 0 {
        lemma_member_seq_model_index(s.drop_last());
    }
}

pub proof fn lemma_group_seq_model_pointwise(a: Seq<Group>, b: Seq<Group>)
    requires
        a.len() == b.len(),
        forall|i: int| 0 <= i < a.len() ==> group_model(a[i]) == group_model(b[i]),
    ensures
        group_seq_model(a) == group_seq_model(b),
    decreases a,
{
    if a.len() > 0 {
        lemma_group_seq_model_pointwise(a.drop_last(), b.drop_last());
    }
}

pub proof fn lemma_member_seq_model_pointwise(a: Seq<Member>, b: Seq<Member>)
    requires
        a.len() == b.len(),
        forall|i: int| 0 <= i < a.len() ==> member_model(a[i]) == member_model(b[i]),
    ensures
        member_seq_model(a) == member_seq_model(b),
    decreases a,
{
    if a.len() > 0 {
        lemma_member_seq_model_pointwise(a.drop_last(), b.drop_last());
    }
}

/// An embedded group reference with its own `members` back-reference
/// cleared, as stored for a person.
pub open spec fn clear_group_ref(g: GroupModel) -> GroupModel {
    GroupModel { members: Option::None, ..g }
}

/// An embedded person reference with its own `groups` back-reference
/// cleared, as stored for a group.
pub open spec fn clear_member_ref(m: MemberModel) -> MemberModel {
    MemberModel { groups: Option::None, ..m }
}

/// The cycle-break transform the cache applies at write time: every group
/// embedded in a person loses its `members`, every person embedded in a
/// group loses its `groups`; records of the other kinds pass unchanged.
pub open spec fn install_record(r: RecordModel) -> RecordModel {
    match r {
        RecordModel::Member(m) => RecordModel::Member(
            MemberModel {
                groups: match m.groups {
                    Option::None => Option::None,
                    Option::Some(gs) => Option::Some(
                        gs.map_values(|g: GroupModel| clear_group_ref(g)),
                    ),
                },
                ..m
            },
        ),
        RecordModel::Group(g) => RecordModel::Group(
            GroupModel {
                members: match g.members {
                    Option::None => Option::None,
                    Option::Some(ms) => Option::Some(
                        ms.map_values(|m: MemberModel| clear_member_ref(m)),
                    ),
                },
                ..g
            },
        ),
        _ => r,
    }
}

/// Default-filled models, mirroring the `Default` implementations: the
/// sentinel placeholder for text fields, empty collections for relations.
pub open spec fn placeholder() -> Seq<char> {
    "N/A"@
}

pub open spec fn period_default_model() -> PeriodModel {
    PeriodModel { start: placeholder(), end: placeholder() }
}

pub open spec fn member_default_model() -> MemberModel {
    MemberModel {
        id: placeholder(),
        avatar: placeholder(),
        name: placeholder(),
        nickname: placeholder(),
        groups: Option::Some(Seq::empty()),
        description: placeholder(),
        club: Option::None,
        club_positions: Seq::empty(),
    }
}

pub open spec fn group_default_model() -> GroupModel {
    GroupModel {
        id: placeholder(),
        name: placeholder(),
        description: placeholder(),
        members: Option::Some(Seq::empty()),
    }
}

pub open spec fn club_default_model() -> ClubModel {
    ClubModel {
        id: placeholder(),
        name: placeholder(),
        description: placeholder(),
        school: placeholder(),
        instagram_id: placeholder(),
        icon: placeholder(),
    }
}

pub open spec fn event_default_model() -> EventModel {
    EventModel {
        id: placeholder(),
        date: period_default_model(),
        name: placeholder(),
        description: placeholder(),
        thumbnail: placeholder(),
        principal: Seq::empty(),
    }
}

pub open spec fn article_default_model() -> ArticleModel {
    ArticleModel {
        id: placeholder(),
        title: placeholder(),
        content: placeholder(),
        description: placeholder(),
        tags: Seq::empty(),
        created_at: placeholder(),
        updated_at: placeholder(),
    }
}

pub open spec fn sponsor_default_model() -> SponsorModel {
    SponsorModel {
        id: placeholder(),
        name: placeholder(),
        icon: placeholder(),
        url: placeholder(),
        description: placeholder(),
    }
}

} // verus!
