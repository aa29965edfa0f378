//! The entity model: six concrete record shapes, the tagged union over
//! them, the fixed refresh ordering of the kinds, and the defaulting
//! policy used when a malformed upstream record is decoded.

use vstd::prelude::*;
use crate::model::{
    article_default_model, article_model, club_default_model, club_model, event_default_model,
    event_model, group_default_model, group_model, group_seq_model, lemma_group_seq_model_pointwise,
    lemma_member_seq_model_pointwise, member_default_model, member_model, member_seq_model,
    period_default_model, period_model, record_model, sponsor_default_model, sponsor_model,
};

verus! {

/// The six entity kinds the cache partitions by.
#[derive(Debug, Clone, Copy, PartialEq, Eq, Structural)]
pub enum NotionDataType {
    Member,
    Group,
    Club,
    Event,
    Article,
    Sponsor,
}

/// The order in which a refresh pass visits the kinds: entities with no
/// outgoing relations first, then relation-bearing kinds in dependency
/// order, so that relation fields resolve against already-refreshed data.
pub open spec fn refresh_order() -> Seq<NotionDataType> {
    seq![
        NotionDataType::Club,
        NotionDataType::Group,
        NotionDataType::Member,
        NotionDataType::Event,
        NotionDataType::Article,
        NotionDataType::Sponsor,
    ]
}

impl NotionDataType {
    /// All kinds, in the stable order a refresh pass uses.
    pub fn iterator() -> (r: Vec<NotionDataType>)
        ensures
            r@ == refresh_order(),
    {
        let mut v: Vec<NotionDataType> = Vec::new();
        v.push(NotionDataType::Club);
        v.push(NotionDataType::Group);
        v.push(NotionDataType::Member);
        v.push(NotionDataType::Event);
        v.push(NotionDataType::Article);
        v.push(NotionDataType::Sponsor);
        proof {
            assert(v@ =~= refresh_order());
        }
        v
    }
}

/// The time span of an event.
#[derive(Debug, PartialEq)]
pub struct EventPeriod {
    pub start: String,
    pub end: String,
}

/// A person; `groups` embeds shallow copies of the groups the person
/// belongs to, `club` at most one club.
#[derive(Debug, PartialEq)]
pub struct Member {
    pub id: String,
    pub avatar: String,
    pub name: String,
    pub nickname: String,
    pub groups: Option<Vec<Group>>,
    pub description: String,
    pub club: Option<Club>,
    pub club_positions: Vec<String>,
}

/// A group; `members` embeds shallow copies of the people in it.
#[derive(Debug, PartialEq)]
pub struct Group {
    pub id: String,
    pub name: String,
    pub description: String,
    pub members: Option<Vec<Member>>,
}

/// A club; no outgoing relations.
#[derive(Debug, PartialEq)]
pub struct Club {
    pub id: String,
    pub name: String,
    pub description: String,
    pub school: String,
    pub instagram_id: String,
    pub icon: String,
}

/// An event; `principal` embeds the people in charge of it.
#[derive(Debug, PartialEq)]
pub struct Event {
    pub id: String,
    pub date: EventPeriod,
    pub name: String,
    pub description: String,
    pub thumbnail: String,
    pub principal: Vec<Member>,
}

/// An article; no outgoing relations.
#[derive(Debug, PartialEq)]
pub struct Article {
    pub id: String,
    pub title: String,
    pub content: String,
    pub description: String,
    pub tags: Vec<String>,
    pub created_at: String,
    pub updated_at: String,
}

/// A sponsor; no outgoing relations.
#[derive(Debug, PartialEq)]
pub struct Sponsor {
    pub id: String,
    pub name: String,
    pub icon: String,
    pub url: String,
    pub description: String,
}

/// A record of any one kind: the value type of the cache.
#[derive(Debug, PartialEq)]
pub enum NotionData {
    Member(Member),
    Group(Group),
    Club(Club),
    Event(Event),
    Article(Article),
    Sponsor(Sponsor),
}

fn clone_member_vec(v: &Vec<Member>) -> (res: Vec<Member>)
    ensures
        member_seq_model(res@) == member_seq_model(v@),
    decreases *v,
{
    let mut out: Vec<Member> = Vec::new();
    let mut j: usize = 0;
    while j < v.len()
        invariant
            j <= v.len(),
            out@.len() == j,
            forall|i: int| 0 <= i < j ==> member_model(out@[i]) == member_model(v@[i]),
        decreases v.len() - j,
    {
        proof {
            assert(decreases_to!(*v => v@[j as int]));
        }
        out.push(clone_member(&v[j]));
        j += 1;
    }
    proof {
        lemma_member_seq_model_pointwise(out@, v@);
    }
    out
}

fn clone_group_vec(v: &Vec<Group>) -> (res: Vec<Group>)
    ensures
        group_seq_model(res@) == group_seq_model(v@),
    decreases *v,
{
    let mut out: Vec<Group> = Vec::new();
    let mut j: usize = 0;
    while j < v.len()
        invariant
            j <= v.len(),
            out@.len() == j,
            forall|i: int| 0 <= i < j ==> group_model(out@[i]) == group_model(v@[i]),
        decreases v.len() - j,
    {
        proof {
            assert(decreases_to!(*v => v@[j as int]));
        }
        out.push(clone_group(&v[j]));
        j += 1;
    }
    proof {
        lemma_group_seq_model_pointwise(out@, v@);
    }
    out
}

fn clone_member(m: &Member) -> (res: Member)
    ensures
        member_model(res) == member_model(*m),
    decreases *m,
{
    let groups: Option<Vec<Group>> = match &m.groups {
        Option::None => Option::None,
        Option::Some(gs) => {
            proof {
                assert(decreases_to!(*m => *gs));
            }
            Option::Some(clone_group_vec(gs))
        },
    };
    Member {
        id: m.id.clone(),
        avatar: m.avatar.clone(),
        name: m.name.clone(),
        nickname: m.nickname.clone(),
        groups,
        description: m.description.clone(),
        club: clone_club_opt(&m.club),
        club_positions: clone_texts(&m.club_positions),
    }
}

fn clone_group(g: &Group) -> (res: Group)
    ensures
        group_model(res) == group_model(*g),
    decreases *g,
{
    let members: Option<Vec<Member>> = match &g.members {
        Option::None => Option::None,
        Option::Some(ms) => {
            proof {
                assert(decreases_to!(*g => *ms));
            }
            Option::Some(clone_member_vec(ms))
        },
    };
    Group {
        id: g.id.clone(),
        name: g.name.clone(),
        description: g.description.clone(),
        members,
    }
}

fn clone_texts(v: &Vec<String>) -> (res: Vec<String>)
    ensures
        res.deep_view() == v.deep_view(),
{
    let res = v.clone();
    proof {
        assert(res.deep_view() =~= v.deep_view());
    }
    res
}

fn clone_club_opt(c: &Option<Club>) -> (res: Option<Club>)
    ensures
        match (res, *c) {
            (Option::None, Option::None) => true,
            (Option::Some(r), Option::Some(o)) => club_model(r) == club_model(o),
            _ => false,
        },
{
    match c {
        Option::None => Option::None,
        Option::Some(club) => Option::Some(club.clone()),
    }
}

impl Clone for EventPeriod {
    fn clone(&self) -> (res: Self)
        ensures
            period_model(res) == period_model(*self),
    {
        EventPeriod { start: self.start.clone(), end: self.end.clone() }
    }
}

impl Clone for Club {
    fn clone(&self) -> (res: Self)
        ensures
            club_model(res) == club_model(*self),
    {
        Club {
            id: self.id.clone(),
            name: self.name.clone(),
            description: self.description.clone(),
            school: self.school.clone(),
            instagram_id: self.instagram_id.clone(),
            icon: self.icon.clone(),
        }
    }
}

impl Clone for Article {
    fn clone(&self) -> (res: Self)
        ensures
            article_model(res) == article_model(*self),
    {
        Article {
            id: self.id.clone(),
            title: self.title.clone(),
            content: self.content.clone(),
            description: self.description.clone(),
            tags: clone_texts(&self.tags),
            created_at: self.created_at.clone(),
            updated_at: self.updated_at.clone(),
        }
    }
}

impl Clone for Sponsor {
    fn clone(&self) -> (res: Self)
        ensures
            sponsor_model(res) == sponsor_model(*self),
    {
        Sponsor {
            id: self.id.clone(),
            name: self.name.clone(),
            icon: self.icon.clone(),
            url: self.url.clone(),
            description: self.description.clone(),
        }
    }
}

impl Clone for Member {
    fn clone(&self) -> (res: Self)
        ensures
            member_model(res) == member_model(*self),
    {
        clone_member(self)
    }
}

impl Clone for Group {
    fn clone(&self) -> (res: Self)
        ensures
            group_model(res) == group_model(*self),
    {
        clone_group(self)
    }
}

impl Clone for Event {
    fn clone(&self) -> (res: Self)
        ensures
            event_model(res) == event_model(*self),
    {
        Event {
            id: self.id.clone(),
            date: self.date.clone(),
            name: self.name.clone(),
            description: self.description.clone(),
            thumbnail: self.thumbnail.clone(),
            principal: clone_member_vec(&self.principal),
        }
    }
}

impl Clone for NotionData {
    fn clone(&self) -> (res: Self)
        ensures
            record_model(res) == record_model(*self),
    {
        match self {
            NotionData::Member(m) => NotionData::Member(m.clone()),
            NotionData::Group(g) => NotionData::Group(g.clone()),
            NotionData::Club(c) => NotionData::Club(c.clone()),
            NotionData::Event(e) => NotionData::Event(e.clone()),
            NotionData::Article(a) => NotionData::Article(a.clone()),
            NotionData::Sponsor(s) => NotionData::Sponsor(s.clone()),
        }
    }
}

pub(crate) fn placeholder_text() -> (res: String)
    ensures
        res@ == crate::model::placeholder(),
{
    String::from_str("N/A")
}

impl Default for EventPeriod {
    fn default() -> (res: Self)
        ensures
            period_model(res) == period_default_model(),
    {
        EventPeriod { start: placeholder_text(), end: placeholder_text() }
    }
}

impl Default for Member {
    fn default() -> (res: Self)
        ensures
            member_model(res) == member_default_model(),
    {
        let res = Member {
            id: placeholder_text(),
            avatar: placeholder_text(),
            name: placeholder_text(),
            nickname: placeholder_text(),
            groups: Option::Some(Vec::new()),
            description: placeholder_text(),
            club: Option::None,
            club_positions: Vec::new(),
        };
        proof {
            assert(res.club_positions.deep_view() =~= Seq::<Seq<char>>::empty());
        }
        res
    }
}

impl Default for Group {
    fn default() -> (res: Self)
        ensures
            group_model(res) == group_default_model(),
    {
        Group {
            id: placeholder_text(),
            name: placeholder_text(),
            description: placeholder_text(),
            members: Option::Some(Vec::new()),
        }
    }
}

impl Default for Club {
    fn default() -> (res: Self)
        ensures
            club_model(res) == club_default_model(),
    {
        Club {
            id: placeholder_text(),
            name: placeholder_text(),
            description: placeholder_text(),
            school: placeholder_text(),
            instagram_id: placeholder_text(),
            icon: placeholder_text(),
        }
    }
}

impl Default for Event {
    fn default() -> (res: Self)
        ensures
            event_model(res) == event_default_model(),
    {
        Event {
            id: placeholder_text(),
            date: EventPeriod::default(),
            name: placeholder_text(),
            description: placeholder_text(),
            thumbnail: placeholder_text(),
            principal: Vec::new(),
        }
    }
}

impl Default for Article {
    fn default() -> (res: Self)
        ensures
            article_model(res) == article_default_model(),
    {
        let res = Article {
            id: placeholder_text(),
            title: placeholder_text(),
            content: placeholder_text(),
            description: placeholder_text(),
            tags: Vec::new(),
            created_at: placeholder_text(),
            updated_at: placeholder_text(),
        };
        proof {
            assert(res.tags.deep_view() =~= Seq::<Seq<char>>::empty());
        }
        res
    }
}

impl Default for Sponsor {
    fn default() -> (res: Self)
        ensures
            sponsor_model(res) == sponsor_default_model(),
    {
        Sponsor {
            id: placeholder_text(),
            name: placeholder_text(),
            icon: placeholder_text(),
            url: placeholder_text(),
            description: placeholder_text(),
        }
    }
}

} // verus!
