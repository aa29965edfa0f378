//! Kind-specific decoders from a raw external record to the entity
//! shapes.
//!
//! Each decoder either produces a record whose every field is pinned to a
//! navigation chain into the raw record, or fails naming the first
//! required field (in the kind's documented order) that is missing or
//! mistyped. Relation fields are resolved by consulting the cache for
//! already-cached related records; a relation whose target is not cached
//! resolves to the kind's default-filled value (for an embedded list
//! entry) or to no value (for the optional club).

use vstd::prelude::*;
use crate::cache::CacheStorage;
use crate::model::{
    club_model, event_model, group_default_model, group_model, group_seq_model,
    lemma_group_seq_model_index, lemma_member_seq_model_index, member_default_model, member_model,
    member_seq_model, period_model, placeholder, ClubModel, EventModel, GroupModel, MemberModel,
    PeriodModel, RecordModel,
};
use crate::raw::{
    get_idx, get_key, get_list, get_text, lemma_raw_seq_model_index, opt_raw_model, raw_model,
    raw_seq_model, RawModel, RawValue,
};
use crate::types::{
    placeholder_text, Article, Club, Event, EventPeriod, Group, Member, NotionData,
    NotionDataType, Sponsor,
};

verus! {

/// Failure to decode one raw record: names the required field that was
/// missing or mistyped.
#[derive(Debug)]
pub struct DecodeError {
    pub field: String,
}

/// The text under `key` -> "title" -> first element -> "plain_text".
pub open spec fn title_text(p: RawModel, key: Seq<char>) -> Option<Seq<char>> {
    p.get(key).get("title"@).index(0).get("plain_text"@).text()
}

/// The text under `key` -> "rich_text" -> first element -> "plain_text".
pub open spec fn rich_text(p: RawModel, key: Seq<char>) -> Option<Seq<char>> {
    p.get(key).get("rich_text"@).index(0).get("plain_text"@).text()
}

/// The text under `key` -> "files" -> first element -> "external" ->
/// "url".
pub open spec fn file_url(p: RawModel, key: Seq<char>) -> Option<Seq<char>> {
    p.get(key).get("files"@).index(0).get("external"@).get("url"@).text()
}

/// The identifier text of one relation entry; empty when unreadable.
pub open spec fn rel_id(entry: RawModel) -> Seq<char> {
    match entry.get("id"@).text() {
        Option::Some(t) => t,
        Option::None => ""@,
    }
}

/// The name of one select entry; the placeholder when unreadable.
pub open spec fn select_name(entry: RawModel) -> Seq<char> {
    match entry.get("name"@).text() {
        Option::Some(t) => t,
        Option::None => placeholder(),
    }
}

pub open spec fn select_names(entries: Seq<RawModel>) -> Seq<Seq<char>>
    decreases entries,
{
    if entries.len() == 0 {
        Seq::empty()
    } else {
        select_names(entries.drop_last()).push(select_name(entries.last()))
    }
}

/// The group embedded for one relation entry: the cached group under the
/// entry's identifier, or the default group when none is cached.
pub open spec fn resolved_group(entry: RawModel, groups: Map<Seq<char>, RecordModel>) -> GroupModel {
    let gid = rel_id(entry);
    if groups.contains_key(gid) && groups[gid] is Group {
        groups[gid]->Group_0
    } else {
        group_default_model()
    }
}

pub open spec fn resolved_groups(
    entries: Seq<RawModel>,
    groups: Map<Seq<char>, RecordModel>,
) -> Seq<GroupModel>
    decreases entries,
{
    if entries.len() == 0 {
        Seq::empty()
    } else {
        resolved_groups(entries.drop_last(), groups).push(resolved_group(entries.last(), groups))
    }
}

/// The person embedded for one relation entry: the cached person under
/// the entry's identifier, or the default person when none is cached.
pub open spec fn resolved_member(
    entry: RawModel,
    members: Map<Seq<char>, RecordModel>,
) -> MemberModel {
    let mid = rel_id(entry);
    if members.contains_key(mid) && members[mid] is Member {
        members[mid]->Member_0
    } else {
        member_default_model()
    }
}

pub open spec fn resolved_members(
    entries: Seq<RawModel>,
    members: Map<Seq<char>, RecordModel>,
) -> Seq<MemberModel>
    decreases entries,
{
    if entries.len() == 0 {
        Seq::empty()
    } else {
        resolved_members(entries.drop_last(), members).push(
            resolved_member(entries.last(), members),
        )
    }
}

/// The club a person's optional club relation resolves to, if its first
/// entry names a cached club.
pub open spec fn resolved_club(p: RawModel, clubs: Map<Seq<char>, RecordModel>) -> Option<
    ClubModel,
> {
    let cid = match p.get("club"@).get("relation"@).index(0).get("id"@).text() {
        Option::Some(t) => t,
        Option::None => ""@,
    };
    if clubs.contains_key(cid) && clubs[cid] is Club {
        Option::Some(clubs[cid]->Club_0)
    } else {
        Option::None
    }
}

pub open spec fn period_decode(j: RawModel) -> Result<PeriodModel, Seq<char>> {
    if j.get("start"@).text() is None {
        Result::Err("start"@)
    } else if j.get("end"@).text() is None {
        Result::Err("end"@)
    } else {
        Result::Ok(
            PeriodModel { start: j.get("start"@).text()->Some_0, end: j.get("end"@).text()->Some_0 },
        )
    }
}

pub open spec fn club_decode(j: RawModel) -> Result<ClubModel, Seq<char>> {
    let p = j.get("properties"@);
    if j.get("id"@).text() is None {
        Result::Err("id"@)
    } else if title_text(p, "name"@) is None {
        Result::Err("name"@)
    } else if rich_text(p, "description"@) is None {
        Result::Err("description"@)
    } else if p.get("school"@).get("select"@).get("name"@).text() is None {
        Result::Err("school"@)
    } else if rich_text(p, "instagram_id"@) is None {
        Result::Err("instagram_id"@)
    } else if file_url(p, "icon"@) is None {
        Result::Err("icon"@)
    } else {
        Result::Ok(
            ClubModel {
                id: j.get("id"@).text()->Some_0,
                name: title_text(p, "name"@)->Some_0,
                description: rich_text(p, "description"@)->Some_0,
                school: p.get("school"@).get("select"@).get("name"@).text()->Some_0,
                instagram_id: rich_text(p, "instagram_id"@)->Some_0,
                icon: file_url(p, "icon"@)->Some_0,
            },
        )
    }
}

pub open spec fn article_decode(j: RawModel) -> Result<crate::model::ArticleModel, Seq<char>> {
    let p = j.get("properties"@);
    if j.get("id"@).text() is None {
        Result::Err("id"@)
    } else if title_text(p, "title"@) is None {
        Result::Err("title"@)
    } else if rich_text(p, "description"@) is None {
        Result::Err("description"@)
    } else if p.get("tags"@).get("multi_select"@).list() is None {
        Result::Err("tags"@)
    } else if p.get("created_at"@).get("created_time"@).text() is None {
        Result::Err("created_at"@)
    } else if p.get("updated_at"@).get("last_edited_time"@).text() is None {
        Result::Err("updated_at"@)
    } else {
        Result::Ok(
            crate::model::ArticleModel {
                id: j.get("id"@).text()->Some_0,
                title: title_text(p, "title"@)->Some_0,
                content: "Todo"@,
                description: rich_text(p, "description"@)->Some_0,
                tags: select_names(p.get("tags"@).get("multi_select"@).list()->Some_0),
                created_at: p.get("created_at"@).get("created_time"@).text()->Some_0,
                updated_at: p.get("updated_at"@).get("last_edited_time"@).text()->Some_0,
            },
        )
    }
}

pub open spec fn sponsor_decode(j: RawModel) -> Result<crate::model::SponsorModel, Seq<char>> {
    let p = j.get("properties"@);
    if j.get("id"@).text() is None {
        Result::Err("id"@)
    } else if title_text(p, "name"@) is None {
        Result::Err("name"@)
    } else if rich_text(p, "description"@) is None {
        Result::Err("description"@)
    } else if p.get("url"@).get("url"@).text() is None {
        Result::Err("url"@)
    } else if file_url(p, "icon"@) is None {
        Result::Err("icon"@)
    } else {
        Result::Ok(
            crate::model::SponsorModel {
                id: j.get("id"@).text()->Some_0,
                name: title_text(p, "name"@)->Some_0,
                icon: file_url(p, "icon"@)->Some_0,
                url: p.get("url"@).get("url"@).text()->Some_0,
                description: rich_text(p, "description"@)->Some_0,
            },
        )
    }
}

pub open spec fn member_decode(
    j: RawModel,
    groups: Map<Seq<char>, RecordModel>,
    clubs: Map<Seq<char>, RecordModel>,
) -> Result<MemberModel, Seq<char>> {
    let p = j.get("properties"@);
    if p.get("groups"@).get("relation"@).list() is None {
        Result::Err("groups"@)
    } else if j.get("id"@).text() is None {
        Result::Err("id"@)
    } else if file_url(p, "avatar"@) is None {
        Result::Err("avatar"@)
    } else if title_text(p, "name"@) is None {
        Result::Err("name"@)
    } else if rich_text(p, "nickname"@) is None {
        Result::Err("nickname"@)
    } else if rich_text(p, "description"@) is None {
        Result::Err("description"@)
    } else if p.get("club_positions"@).get("multi_select"@).list() is None {
        Result::Err("club_positions"@)
    } else {
        Result::Ok(
            MemberModel {
                id: j.get("id"@).text()->Some_0,
                avatar: file_url(p, "avatar"@)->Some_0,
                name: title_text(p, "name"@)->Some_0,
                nickname: rich_text(p, "nickname"@)->Some_0,
                groups: Option::Some(
                    resolved_groups(p.get("groups"@).get("relation"@).list()->Some_0, groups),
                ),
                description: rich_text(p, "description"@)->Some_0,
                club: resolved_club(p, clubs),
                club_positions: select_names(
                    p.get("club_positions"@).get("multi_select"@).list()->Some_0,
                ),
            },
        )
    }
}

pub open spec fn group_decode(j: RawModel, members: Map<Seq<char>, RecordModel>) -> Result<
    GroupModel,
    Seq<char>,
> {
    let p = j.get("properties"@);
    if p.get("members"@).get("relation"@).list() is None {
        Result::Err("members"@)
    } else if j.get("id"@).text() is None {
        Result::Err("id"@)
    } else if title_text(p, "name"@) is None {
        Result::Err("name"@)
    } else if rich_text(p, "description"@) is None {
        Result::Err("description"@)
    } else {
        Result::Ok(
            GroupModel {
                id: j.get("id"@).text()->Some_0,
                name: title_text(p, "name"@)->Some_0,
                description: rich_text(p, "description"@)->Some_0,
                members: Option::Some(
                    resolved_members(p.get("members"@).get("relation"@).list()->Some_0, members),
                ),
            },
        )
    }
}

pub open spec fn event_decode(j: RawModel, members: Map<Seq<char>, RecordModel>) -> Result<
    EventModel,
    Seq<char>,
> {
    let p = j.get("properties"@);
    if p.get("principal"@).get("relation"@).list() is None {
        Result::Err("principal"@)
    } else if j.get("id"@).text() is None {
        Result::Err("id"@)
    } else if period_decode(p.get("date"@).get("date"@)) is Err {
        Result::Err(period_decode(p.get("date"@).get("date"@))->Err_0)
    } else if title_text(p, "name"@) is None {
        Result::Err("name"@)
    } else if rich_text(p, "description"@) is None {
        Result::Err("description"@)
    } else if file_url(p, "thumbnail"@) is None {
        Result::Err("thumbnail"@)
    } else {
        Result::Ok(
            EventModel {
                id: j.get("id"@).text()->Some_0,
                date: period_decode(p.get("date"@).get("date"@))->Ok_0,
                name: title_text(p, "name"@)->Some_0,
                description: rich_text(p, "description"@)->Some_0,
                thumbnail: file_url(p, "thumbnail"@)->Some_0,
                principal: resolved_members(
                    p.get("principal"@).get("relation"@).list()->Some_0,
                    members,
                ),
            },
        )
    }
}

proof fn lemma_select_names_index(entries: Seq<RawModel>)
    ensures
        select_names(entries).len() == entries.len(),
        forall|i: int| 0 <= i < entries.len() ==> select_names(entries)[i] == select_name(
            entries[i],
        ),
    decreases entries,
{
    if entries.len() > 0 {
        lemma_select_names_index(entries.drop_last());
    }
}

proof fn lemma_resolved_groups_index(entries: Seq<RawModel>, groups: Map<Seq<char>, RecordModel>)
    ensures
        resolved_groups(entries, groups).len() == entries.len(),
        forall|i: int| 0 <= i < entries.len() ==> resolved_groups(entries, groups)[i]
            == resolved_group(entries[i], groups),
    decreases entries,
{
    if entries.len() > 0 {
        lemma_resolved_groups_index(entries.drop_last(), groups);
    }
}

proof fn lemma_resolved_members_index(entries: Seq<RawModel>, members: Map<Seq<char>, RecordModel>)
    ensures
        resolved_members(entries, members).len() == entries.len(),
        forall|i: int| 0 <= i < entries.len() ==> resolved_members(entries, members)[i]
            == resolved_member(entries[i], members),
    decreases entries,
{
    if entries.len() > 0 {
        lemma_resolved_members_index(entries.drop_last(), members);
    }
}

fn decode_error(field: &str) -> (r: DecodeError)
    ensures
        r.field@ == field@,
{
    DecodeError { field: String::from_str(field) }
}

impl EventPeriod {
    /// Decodes an event's time span; fails naming `start` or `end`.
    pub fn from_json(json_data: &RawValue) -> (r: Result<EventPeriod, DecodeError>)
        ensures
            match r {
                Result::Ok(pp) => period_decode(raw_model(*json_data)) == Result::Ok::<
                    PeriodModel,
                    Seq<char>,
                >(period_model(pp)),
                Result::Err(e) => period_decode(raw_model(*json_data)) == Result::Err::<
                    PeriodModel,
                    Seq<char>,
                >(e.field@),
            },
    {
        let start: String = match get_text(get_key(Option::Some(json_data), "start")) {
            Option::Some(s) => s.clone(),
            Option::None => {
                return Result::Err(decode_error("start"));
            },
        };
        let end: String = match get_text(get_key(Option::Some(json_data), "end")) {
            Option::Some(s) => s.clone(),
            Option::None => {
                return Result::Err(decode_error("end"));
            },
        };
        Result::Ok(EventPeriod { start, end })
    }
}

impl Club {
    /// Decodes a club; fails naming the first missing required field.
    pub fn from_json(json_data: &RawValue) -> (r: Result<Club, DecodeError>)
        ensures
            match r {
                Result::Ok(c) => club_decode(raw_model(*json_data)) == Result::Ok::<
                    ClubModel,
                    Seq<char>,
                >(club_model(c)),
                Result::Err(e) => club_decode(raw_model(*json_data)) == Result::Err::<
                    ClubModel,
                    Seq<char>,
                >(e.field@),
            },
    {
        let p = get_key(Option::Some(json_data), "properties");
        let id: String = match get_text(get_key(Option::Some(json_data), "id")) {
            Option::Some(s) => s.clone(),
            Option::None => {
                return Result::Err(decode_error("id"));
            },
        };
        let name: String = match get_text(
            get_key(get_idx(get_key(get_key(p, "name"), "title"), 0), "plain_text"),
        ) {
            Option::Some(s) => s.clone(),
            Option::None => {
                return Result::Err(decode_error("name"));
            },
        };
        let description: String = match get_text(
            get_key(get_idx(get_key(get_key(p, "description"), "rich_text"), 0), "plain_text"),
        ) {
            Option::Some(s) => s.clone(),
            Option::None => {
                return Result::Err(decode_error("description"));
            },
        };
        let school: String = match get_text(get_key(get_key(get_key(p, "school"), "select"), "name"))
            {
            Option::Some(s) => s.clone(),
            Option::None => {
                return Result::Err(decode_error("school"));
            },
        };
        let instagram_id: String = match get_text(
            get_key(get_idx(get_key(get_key(p, "instagram_id"), "rich_text"), 0), "plain_text"),
        ) {
            Option::Some(s) => s.clone(),
            Option::None => {
                return Result::Err(decode_error("instagram_id"));
            },
        };
        let icon: String = match get_text(
            get_key(get_key(get_idx(get_key(get_key(p, "icon"), "files"), 0), "external"), "url"),
        ) {
            Option::Some(s) => s.clone(),
            Option::None => {
                return Result::Err(decode_error("icon"));
            },
        };
        Result::Ok(Club { id, name, description, school, instagram_id, icon })
    }
}

impl Sponsor {
    /// Decodes a sponsor; fails naming the first missing required field.
    pub fn from_json(json_data: &RawValue) -> (r: Result<Sponsor, DecodeError>)
        ensures
            match r {
                Result::Ok(s) => sponsor_decode(raw_model(*json_data)) == Result::Ok::<
                    crate::model::SponsorModel,
                    Seq<char>,
                >(crate::model::sponsor_model(s)),
                Result::Err(e) => sponsor_decode(raw_model(*json_data)) == Result::Err::<
                    crate::model::SponsorModel,
                    Seq<char>,
                >(e.field@),
            },
    {
        let p = get_key(Option::Some(json_data), "properties");
        let id: String = match get_text(get_key(Option::Some(json_data), "id")) {
            Option::Some(s) => s.clone(),
            Option::None => {
                return Result::Err(decode_error("id"));
            },
        };
        let name: String = match get_text(
            get_key(get_idx(get_key(get_key(p, "name"), "title"), 0), "plain_text"),
        ) {
            Option::Some(s) => s.clone(),
            Option::None => {
                return Result::Err(decode_error("name"));
            },
        };
        let description: String = match get_text(
            get_key(get_idx(get_key(get_key(p, "description"), "rich_text"), 0), "plain_text"),
        ) {
            Option::Some(s) => s.clone(),
            Option::None => {
                return Result::Err(decode_error("description"));
            },
        };
        let url: String = match get_text(get_key(get_key(p, "url"), "url")) {
            Option::Some(s) => s.clone(),
            Option::None => {
                return Result::Err(decode_error("url"));
            },
        };
        let icon: String = match get_text(
            get_key(get_key(get_idx(get_key(get_key(p, "icon"), "files"), 0), "external"), "url"),
        ) {
            Option::Some(s) => s.clone(),
            Option::None => {
                return Result::Err(decode_error("icon"));
            },
        };
        Result::Ok(Sponsor { id, name, icon, url, description })
    }
}

impl Article {
    /// Decodes an article; fails naming the first missing required
    /// field. Tag entries without a readable name fall back to the
    /// placeholder.
    pub fn from_json(json_data: &RawValue) -> (r: Result<Article, DecodeError>)
        ensures
            match r {
                Result::Ok(a) => article_decode(raw_model(*json_data)) == Result::Ok::<
                    crate::model::ArticleModel,
                    Seq<char>,
                >(crate::model::article_model(a)),
                Result::Err(e) => article_decode(raw_model(*json_data)) == Result::Err::<
                    crate::model::ArticleModel,
                    Seq<char>,
                >(e.field@),
            },
    {
        let p = get_key(Option::Some(json_data), "properties");
        let id: String = match get_text(get_key(Option::Some(json_data), "id")) {
            Option::Some(s) => s.clone(),
            Option::None => {
                return Result::Err(decode_error("id"));
            },
        };
        let title: String = match get_text(
            get_key(get_idx(get_key(get_key(p, "title"), "title"), 0), "plain_text"),
        ) {
            Option::Some(s) => s.clone(),
            Option::None => {
                return Result::Err(decode_error("title"));
            },
        };
        let description: String = match get_text(
            get_key(get_idx(get_key(get_key(p, "description"), "rich_text"), 0), "plain_text"),
        ) {
            Option::Some(s) => s.clone(),
            Option::None => {
                return Result::Err(decode_error("description"));
            },
        };
        let tag_items: &Vec<RawValue> = match get_list(
            get_key(get_key(p, "tags"), "multi_select"),
        ) {
            Option::Some(items) => items,
            Option::None => {
                return Result::Err(decode_error("tags"));
            },
        };
        let mut tags: Vec<String> = Vec::new();
        let mut j: usize = 0;
        while j < tag_items.len()
            invariant
                j <= tag_items@.len(),
                tags@.len() == j,
                forall|i: int| 0 <= i < j ==> tags@[i]@ == select_name(
                    raw_seq_model(tag_items@)[i],
                ),
            decreases tag_items@.len() - j,
        {
            proof {
                lemma_raw_seq_model_index(tag_items@);
            }
            let nm: String = match get_text(get_key(Option::Some(&tag_items[j]), "name")) {
                Option::Some(s) => s.clone(),
                Option::None => placeholder_text(),
            };
            tags.push(nm);
            j += 1;
        }
        proof {
            lemma_raw_seq_model_index(tag_items@);
            lemma_select_names_index(raw_seq_model(tag_items@));
            assert(tags.deep_view() =~= select_names(raw_seq_model(tag_items@)));
        }
        let created_at: String = match get_text(
            get_key(get_key(p, "created_at"), "created_time"),
        ) {
            Option::Some(s) => s.clone(),
            Option::None => {
                return Result::Err(decode_error("created_at"));
            },
        };
        let updated_at: String = match get_text(
            get_key(get_key(p, "updated_at"), "last_edited_time"),
        ) {
            Option::Some(s) => s.clone(),
            Option::None => {
                return Result::Err(decode_error("updated_at"));
            },
        };
        Result::Ok(
            Article {
                id,
                title,
                content: String::from_str("Todo"),
                description,
                tags,
                created_at,
                updated_at,
            },
        )
    }
}

impl Member {
    /// Decodes a person, resolving group and club relations against the
    /// cache; fails naming the first missing required field. A relation
    /// entry whose target is not cached resolves to the default group
    /// (for the list) or to no club.
    pub fn from_json(json_data: &RawValue, cache: &CacheStorage) -> (r: Result<
        Member,
        DecodeError,
    >)
        requires
            cache.wf(),
        ensures
            match r {
                Result::Ok(m) => member_decode(
                    raw_model(*json_data),
                    cache@.partition(NotionDataType::Group),
                    cache@.partition(NotionDataType::Club),
                ) == Result::Ok::<MemberModel, Seq<char>>(member_model(m)),
                Result::Err(e) => member_decode(
                    raw_model(*json_data),
                    cache@.partition(NotionDataType::Group),
                    cache@.partition(NotionDataType::Club),
                ) == Result::Err::<MemberModel, Seq<char>>(e.field@),
            },
    {
        let p = get_key(Option::Some(json_data), "properties");
        let rel: &Vec<RawValue> = match get_list(get_key(get_key(p, "groups"), "relation")) {
            Option::Some(items) => items,
            Option::None => {
                return Result::Err(decode_error("groups"));
            },
        };
        let mut groups_vec: Vec<Group> = Vec::new();
        let mut j: usize = 0;
        while j < rel.len()
            invariant
                j <= rel@.len(),
                groups_vec@.len() == j,
                cache.wf(),
                forall|i: int| 0 <= i < j ==> group_model(groups_vec@[i]) == resolved_group(
                    raw_seq_model(rel@)[i],
                    cache@.partition(NotionDataType::Group),
                ),
            decreases rel@.len() - j,
        {
            proof {
                lemma_raw_seq_model_index(rel@);
            }
            let entry: &RawValue = &rel[j];
            let gid: Option<&String> = get_text(get_key(Option::Some(entry), "id"));
            let idref: &str = match gid {
                Option::Some(s) => s.as_str(),
                Option::None => "",
            };
            proof {
                assert(idref@ == rel_id(raw_model(*entry)));
            }
            let looked: Option<NotionData> = cache.request(idref, &NotionDataType::Group);
            let emb: Group = match looked {
                Option::Some(NotionData::Group(g)) => g,
                Option::Some(_) => Group::default(),
                Option::None => Group::default(),
            };
            proof {
                assert(group_model(emb) == resolved_group(
                    raw_model(*entry),
                    cache@.partition(NotionDataType::Group),
                ));
            }
            groups_vec.push(emb);
            j += 1;
        }
        let id: String = match get_text(get_key(Option::Some(json_data), "id")) {
            Option::Some(s) => s.clone(),
            Option::None => {
                return Result::Err(decode_error("id"));
            },
        };
        let avatar: String = match get_text(
            get_key(get_key(get_idx(get_key(get_key(p, "avatar"), "files"), 0), "external"), "url"),
        ) {
            Option::Some(s) => s.clone(),
            Option::None => {
                return Result::Err(decode_error("avatar"));
            },
        };
        let name: String = match get_text(
            get_key(get_idx(get_key(get_key(p, "name"), "title"), 0), "plain_text"),
        ) {
            Option::Some(s) => s.clone(),
            Option::None => {
                return Result::Err(decode_error("name"));
            },
        };
        let nickname: String = match get_text(
            get_key(get_idx(get_key(get_key(p, "nickname"), "rich_text"), 0), "plain_text"),
        ) {
            Option::Some(s) => s.clone(),
            Option::None => {
                return Result::Err(decode_error("nickname"));
            },
        };
        let description: String = match get_text(
            get_key(get_idx(get_key(get_key(p, "description"), "rich_text"), 0), "plain_text"),
        ) {
            Option::Some(s) => s.clone(),
            Option::None => {
                return Result::Err(decode_error("description"));
            },
        };
        let cid: Option<&String> = get_text(
            get_key(get_idx(get_key(get_key(p, "club"), "relation"), 0), "id"),
        );
        let cidref: &str = match cid {
            Option::Some(s) => s.as_str(),
            Option::None => "",
        };
        let clooked: Option<NotionData> = cache.request(cidref, &NotionDataType::Club);
        let club: Option<Club> = match clooked {
            Option::Some(NotionData::Club(c)) => Option::Some(c),
            Option::Some(_) => Option::None,
            Option::None => Option::None,
        };
        let pos_items: &Vec<RawValue> = match get_list(
            get_key(get_key(p, "club_positions"), "multi_select"),
        ) {
            Option::Some(items) => items,
            Option::None => {
                return Result::Err(decode_error("club_positions"));
            },
        };
        let mut club_positions: Vec<String> = Vec::new();
        let mut j2: usize = 0;
        while j2 < pos_items.len()
            invariant
                j2 <= pos_items@.len(),
                club_positions@.len() == j2,
                forall|i: int| 0 <= i < j2 ==> club_positions@[i]@ == select_name(
                    raw_seq_model(pos_items@)[i],
                ),
            decreases pos_items@.len() - j2,
        {
            proof {
                lemma_raw_seq_model_index(pos_items@);
            }
            let nm: String = match get_text(get_key(Option::Some(&pos_items[j2]), "name")) {
                Option::Some(s) => s.clone(),
                Option::None => placeholder_text(),
            };
            club_positions.push(nm);
            j2 += 1;
        }
        proof {
            lemma_raw_seq_model_index(rel@);
            lemma_group_seq_model_index(groups_vec@);
            lemma_resolved_groups_index(
                raw_seq_model(rel@),
                cache@.partition(NotionDataType::Group),
            );
            assert(group_seq_model(groups_vec@) =~= resolved_groups(
                raw_seq_model(rel@),
                cache@.partition(NotionDataType::Group),
            ));
            lemma_raw_seq_model_index(pos_items@);
            lemma_select_names_index(raw_seq_model(pos_items@));
            assert(club_positions.deep_view() =~= select_names(raw_seq_model(pos_items@)));
        }
        Result::Ok(
            Member {
                id,
                avatar,
                name,
                nickname,
                groups: Option::Some(groups_vec),
                description,
                club,
                club_positions,
            },
        )
    }
}

impl Group {
    /// Decodes a group, resolving member relations against the cache;
    /// fails naming the first missing required field. A relation entry
    /// whose target is not cached resolves to the default person.
    pub fn from_json(json_data: &RawValue, cache: &CacheStorage) -> (r: Result<Group, DecodeError>)
        requires
            cache.wf(),
        ensures
            match r {
                Result::Ok(g) => group_decode(
                    raw_model(*json_data),
                    cache@.partition(NotionDataType::Member),
                ) == Result::Ok::<GroupModel, Seq<char>>(group_model(g)),
                Result::Err(e) => group_decode(
                    raw_model(*json_data),
                    cache@.partition(NotionDataType::Member),
                ) == Result::Err::<GroupModel, Seq<char>>(e.field@),
            },
    {
        let p = get_key(Option::Some(json_data), "properties");
        let rel: &Vec<RawValue> = match get_list(get_key(get_key(p, "members"), "relation")) {
            Option::Some(items) => items,
            Option::None => {
                return Result::Err(decode_error("members"));
            },
        };
        let mut members_vec: Vec<Member> = Vec::new();
        let mut j: usize = 0;
        while j < rel.len()
            invariant
                j <= rel@.len(),
                members_vec@.len() == j,
                cache.wf(),
                forall|i: int| 0 <= i < j ==> member_model(members_vec@[i]) == resolved_member(
                    raw_seq_model(rel@)[i],
                    cache@.partition(NotionDataType::Member),
                ),
            decreases rel@.len() - j,
        {
            proof {
                lemma_raw_seq_model_index(rel@);
            }
            let entry: &RawValue = &rel[j];
            let mid: Option<&String> = get_text(get_key(Option::Some(entry), "id"));
            let idref: &str = match mid {
                Option::Some(s) => s.as_str(),
                Option::None => "",
            };
            proof {
                assert(idref@ == rel_id(raw_model(*entry)));
            }
            let looked: Option<NotionData> = cache.request(idref, &NotionDataType::Member);
            let emb: Member = match looked {
                Option::Some(NotionData::Member(m)) => m,
                Option::Some(_) => Member::default(),
                Option::None => Member::default(),
            };
            proof {
                assert(member_model(emb) == resolved_member(
                    raw_model(*entry),
                    cache@.partition(NotionDataType::Member),
                ));
            }
            members_vec.push(emb);
            j += 1;
        }
        let id: String = match get_text(get_key(Option::Some(json_data), "id")) {
            Option::Some(s) => s.clone(),
            Option::None => {
                return Result::Err(decode_error("id"));
            },
        };
        let name: String = match get_text(
            get_key(get_idx(get_key(get_key(p, "name"), "title"), 0), "plain_text"),
        ) {
            Option::Some(s) => s.clone(),
            Option::None => {
                return Result::Err(decode_error("name"));
            },
        };
        let description: String = match get_text(
            get_key(get_idx(get_key(get_key(p, "description"), "rich_text"), 0), "plain_text"),
        ) {
            Option::Some(s) => s.clone(),
            Option::None => {
                return Result::Err(decode_error("description"));
            },
        };
        proof {
            lemma_raw_seq_model_index(rel@);
            lemma_member_seq_model_index(members_vec@);
            lemma_resolved_members_index(
                raw_seq_model(rel@),
                cache@.partition(NotionDataType::Member),
            );
            assert(member_seq_model(members_vec@) =~= resolved_members(
                raw_seq_model(rel@),
                cache@.partition(NotionDataType::Member),
            ));
        }
        Result::Ok(Group { id, name, description, members: Option::Some(members_vec) })
    }
}

impl Event {
    /// Decodes an event, resolving principal relations against the
    /// cache; fails naming the first missing required field (for the
    /// time span, `start` or `end`).
    pub fn from_json(json_data: &RawValue, cache: &CacheStorage) -> (r: Result<Event, DecodeError>)
        requires
            cache.wf(),
        ensures
            match r {
                Result::Ok(e) => event_decode(
                    raw_model(*json_data),
                    cache@.partition(NotionDataType::Member),
                ) == Result::Ok::<EventModel, Seq<char>>(event_model(e)),
                Result::Err(e) => event_decode(
                    raw_model(*json_data),
                    cache@.partition(NotionDataType::Member),
                ) == Result::Err::<EventModel, Seq<char>>(e.field@),
            },
    {
        let p = get_key(Option::Some(json_data), "properties");
        let rel: &Vec<RawValue> = match get_list(get_key(get_key(p, "principal"), "relation")) {
            Option::Some(items) => items,
            Option::None => {
                return Result::Err(decode_error("principal"));
            },
        };
        let mut principal: Vec<Member> = Vec::new();
        let mut j: usize = 0;
        while j < rel.len()
            invariant
                j <= rel@.len(),
                principal@.len() == j,
                cache.wf(),
                forall|i: int| 0 <= i < j ==> member_model(principal@[i]) == resolved_member(
                    raw_seq_model(rel@)[i],
                    cache@.partition(NotionDataType::Member),
                ),
            decreases rel@.len() - j,
        {
            proof {
                lemma_raw_seq_model_index(rel@);
            }
            let entry: &RawValue = &rel[j];
            let mid: Option<&String> = get_text(get_key(Option::Some(entry), "id"));
            let idref: &str = match mid {
                Option::Some(s) => s.as_str(),
                Option::None => "",
            };
            proof {
                assert(idref@ == rel_id(raw_model(*entry)));
            }
            let looked: Option<NotionData> = cache.request(idref, &NotionDataType::Member);
            let emb: Member = match looked {
                Option::Some(NotionData::Member(m)) => m,
                Option::Some(_) => Member::default(),
                Option::None => Member::default(),
            };
            proof {
                assert(member_model(emb) == resolved_member(
                    raw_model(*entry),
                    cache@.partition(NotionDataType::Member),
                ));
            }
            principal.push(emb);
            j += 1;
        }
        let id: String = match get_text(get_key(Option::Some(json_data), "id")) {
            Option::Some(s) => s.clone(),
            Option::None => {
                return Result::Err(decode_error("id"));
            },
        };
        let absent = RawValue::Absent;
        let dd = get_key(get_key(p, "date"), "date");
        let date: EventPeriod = match EventPeriod::from_json(
            match dd {
                Option::Some(v) => v,
                Option::None => &absent,
            },
        ) {
            Result::Ok(pp) => pp,
            Result::Err(e) => {
                return Result::Err(e);
            },
        };
        let name: String = match get_text(
            get_key(get_idx(get_key(get_key(p, "name"), "title"), 0), "plain_text"),
        ) {
            Option::Some(s) => s.clone(),
            Option::None => {
                return Result::Err(decode_error("name"));
            },
        };
        let description: String = match get_text(
            get_key(get_idx(get_key(get_key(p, "description"), "rich_text"), 0), "plain_text"),
        ) {
            Option::Some(s) => s.clone(),
            Option::None => {
                return Result::Err(decode_error("description"));
            },
        };
        let thumbnail: String = match get_text(
            get_key(
                get_key(get_idx(get_key(get_key(p, "thumbnail"), "files"), 0), "external"),
                "url",
            ),
        ) {
            Option::Some(s) => s.clone(),
            Option::None => {
                return Result::Err(decode_error("thumbnail"));
            },
        };
        proof {
            lemma_raw_seq_model_index(rel@);
            lemma_member_seq_model_index(principal@);
            lemma_resolved_members_index(
                raw_seq_model(rel@),
                cache@.partition(NotionDataType::Member),
            );
            assert(member_seq_model(principal@) =~= resolved_members(
                raw_seq_model(rel@),
                cache@.partition(NotionDataType::Member),
            ));
        }
        Result::Ok(Event { id, date, name, description, thumbnail, principal })
    }
}

} // verus!
