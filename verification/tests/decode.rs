use scaict_website_api::cache::CacheStorage;
use scaict_website_api::decode::DecodeError;
use scaict_website_api::raw::RawValue;
use scaict_website_api::types::{
    Article, Club, Event, EventPeriod, Group, Member, NotionData, NotionDataType, Sponsor,
};

fn txt(v: &str) -> RawValue {
    RawValue::Text(v.to_string())
}

fn lst(items: Vec<RawValue>) -> RawValue {
    RawValue::List(items)
}

fn obj(pairs: Vec<(&str, RawValue)>) -> RawValue {
    RawValue::Object(pairs.into_iter().map(|(k, v)| (k.to_string(), v)).collect())
}

fn title_field(v: &str) -> RawValue {
    obj(vec![("title", lst(vec![obj(vec![("plain_text", txt(v))])]))])
}

fn rich_field(v: &str) -> RawValue {
    obj(vec![("rich_text", lst(vec![obj(vec![("plain_text", txt(v))])]))])
}

fn file_field(url: &str) -> RawValue {
    obj(vec![("files", lst(vec![obj(vec![("external", obj(vec![("url", txt(url))]))])]))])
}

fn relation_field(ids: Vec<&str>) -> RawValue {
    obj(vec![(
        "relation",
        lst(ids.into_iter().map(|i| obj(vec![("id", txt(i))])).collect()),
    )])
}

fn club_json(id: &str, name: &str) -> RawValue {
    obj(vec![
        ("id", txt(id)),
        (
            "properties",
            obj(vec![
                ("name", title_field(name)),
                ("description", rich_field("a club")),
                ("school", obj(vec![("select", obj(vec![("name", txt("school"))]))])),
                ("instagram_id", rich_field("insta")),
                ("icon", file_field("http://icon")),
            ]),
        ),
    ])
}

fn member_json(id: &str, name: &str, group_ids: Vec<&str>, club_ids: Vec<&str>) -> RawValue {
    obj(vec![
        ("id", txt(id)),
        (
            "properties",
            obj(vec![
                ("groups", relation_field(group_ids)),
                ("avatar", file_field("http://avatar")),
                ("name", title_field(name)),
                ("nickname", rich_field("nick")),
                ("description", rich_field("somebody")),
                ("club", relation_field(club_ids)),
                (
                    "club_positions",
                    obj(vec![(
                        "multi_select",
                        lst(vec![
                            obj(vec![("name", txt("lead"))]),
                            obj(vec![("color", txt("red"))]),
                        ]),
                    )]),
                ),
            ]),
        ),
    ])
}

#[test]
fn club_decodes_every_field() {
    let c = Club::from_json(&club_json("c1", "alpha")).expect("complete club decodes");
    assert_eq!(c.id, "c1");
    assert_eq!(c.name, "alpha");
    assert_eq!(c.description, "a club");
    assert_eq!(c.school, "school");
    assert_eq!(c.instagram_id, "insta");
    assert_eq!(c.icon, "http://icon");
}

#[test]
fn club_missing_field_is_named() {
    let raw = obj(vec![
        ("id", txt("c1")),
        (
            "properties",
            obj(vec![
                ("name", title_field("alpha")),
                ("description", rich_field("a club")),
                ("instagram_id", rich_field("insta")),
                ("icon", file_field("http://icon")),
            ]),
        ),
    ]);
    let e: DecodeError = Club::from_json(&raw).unwrap_err();
    assert_eq!(e.field, "school");
}

#[test]
fn decode_names_the_first_missing_field() {
    let raw = obj(vec![("id", txt("c1")), ("properties", obj(vec![]))]);
    let e = Club::from_json(&raw).unwrap_err();
    assert_eq!(e.field, "name");

    let no_id = obj(vec![("properties", obj(vec![]))]);
    let e2 = Club::from_json(&no_id).unwrap_err();
    assert_eq!(e2.field, "id");
}

#[test]
fn period_decode_and_errors() {
    let ok = EventPeriod::from_json(&obj(vec![("start", txt("a")), ("end", txt("b"))]))
        .expect("complete period decodes");
    assert_eq!(ok.start, "a");
    assert_eq!(ok.end, "b");

    let e = EventPeriod::from_json(&obj(vec![("end", txt("b"))])).unwrap_err();
    assert_eq!(e.field, "start");
    let e2 = EventPeriod::from_json(&obj(vec![("start", txt("a"))])).unwrap_err();
    assert_eq!(e2.field, "end");
}

#[test]
fn sponsor_decodes_and_names_url() {
    let raw = obj(vec![
        ("id", txt("s1")),
        (
            "properties",
            obj(vec![
                ("name", title_field("acme")),
                ("description", rich_field("backer")),
                ("url", obj(vec![("url", txt("http://acme"))])),
                ("icon", file_field("http://i")),
            ]),
        ),
    ]);
    let sp: Sponsor = Sponsor::from_json(&raw).expect("complete sponsor decodes");
    assert_eq!(sp.url, "http://acme");

    let raw2 = obj(vec![
        ("id", txt("s1")),
        (
            "properties",
            obj(vec![
                ("name", title_field("acme")),
                ("description", rich_field("backer")),
                ("icon", file_field("http://i")),
            ]),
        ),
    ]);
    assert_eq!(Sponsor::from_json(&raw2).unwrap_err().field, "url");
}

#[test]
fn article_decodes_with_placeholder_tag() {
    let raw = obj(vec![
        ("id", txt("a1")),
        (
            "properties",
            obj(vec![
                ("title", title_field("headline")),
                ("description", rich_field("about")),
                (
                    "tags",
                    obj(vec![(
                        "multi_select",
                        lst(vec![
                            obj(vec![("name", txt("news"))]),
                            obj(vec![("color", txt("red"))]),
                        ]),
                    )]),
                ),
                ("created_at", obj(vec![("created_time", txt("2023-01-01"))])),
                ("updated_at", obj(vec![("last_edited_time", txt("2023-01-02"))])),
            ]),
        ),
    ]);
    let a: Article = Article::from_json(&raw).expect("complete article decodes");
    assert_eq!(a.title, "headline");
    assert_eq!(a.content, "Todo");
    assert_eq!(a.tags, vec!["news".to_string(), "N/A".to_string()]);
    assert_eq!(a.created_at, "2023-01-01");
    assert_eq!(a.updated_at, "2023-01-02");
}

#[test]
fn article_missing_tags_is_named() {
    let raw = obj(vec![
        ("id", txt("a1")),
        (
            "properties",
            obj(vec![
                ("title", title_field("headline")),
                ("description", rich_field("about")),
                ("created_at", obj(vec![("created_time", txt("t"))])),
                ("updated_at", obj(vec![("last_edited_time", txt("t"))])),
            ]),
        ),
    ]);
    assert_eq!(Article::from_json(&raw).unwrap_err().field, "tags");
}

#[test]
fn member_resolves_cached_relations() {
    let mut cache = CacheStorage::new();
    cache.update(
        &NotionDataType::Club,
        vec![NotionData::Club(Club {
            id: "c1".to_string(),
            name: "alpha".to_string(),
            description: "d".to_string(),
            school: "sch".to_string(),
            instagram_id: "ig".to_string(),
            icon: "i".to_string(),
        })],
    );
    cache.update(
        &NotionDataType::Group,
        vec![NotionData::Group(Group {
            id: "g1".to_string(),
            name: "team".to_string(),
            description: "gd".to_string(),
            members: Some(vec![]),
        })],
    );

    let m: Member =
        Member::from_json(&member_json("m1", "Ada", vec!["g1"], vec!["c1"]), &cache)
            .expect("complete member decodes");
    assert_eq!(m.id, "m1");
    assert_eq!(m.name, "Ada");
    assert_eq!(m.nickname, "nick");
    assert_eq!(m.avatar, "http://avatar");
    assert_eq!(m.club_positions, vec!["lead".to_string(), "N/A".to_string()]);
    let gs = m.groups.expect("decoded member lists groups");
    assert_eq!(gs.len(), 1);
    assert_eq!(gs[0].id, "g1");
    assert_eq!(gs[0].name, "team");
    let c = m.club.expect("cached club resolves");
    assert_eq!(c.id, "c1");
    assert_eq!(c.name, "alpha");
}

#[test]
fn member_unknown_relations_fall_back() {
    let cache = CacheStorage::new();
    let m = Member::from_json(&member_json("m1", "Ada", vec!["nope"], vec!["missing"]), &cache)
        .expect("member decodes with unresolved relations");
    let gs = m.groups.expect("decoded member lists groups");
    assert_eq!(gs.len(), 1);
    assert_eq!(gs[0].id, "N/A");
    assert_eq!(gs[0].name, "N/A");
    assert!(m.club.is_none());
}

#[test]
fn member_missing_groups_is_named() {
    let raw = obj(vec![("id", txt("m1")), ("properties", obj(vec![]))]);
    let cache = CacheStorage::new();
    assert_eq!(Member::from_json(&raw, &cache).unwrap_err().field, "groups");
}

#[test]
fn group_resolves_cached_members() {
    let mut cache = CacheStorage::new();
    cache.update(
        &NotionDataType::Member,
        vec![NotionData::Member(Member {
            id: "m1".to_string(),
            avatar: "av".to_string(),
            name: "Ada".to_string(),
            nickname: "nick".to_string(),
            groups: Some(vec![]),
            description: "desc".to_string(),
            club: None,
            club_positions: vec![],
        })],
    );
    let raw = obj(vec![
        ("id", txt("g1")),
        (
            "properties",
            obj(vec![
                ("members", relation_field(vec!["m1", "absent"])),
                ("name", title_field("team")),
                ("description", rich_field("gd")),
            ]),
        ),
    ]);
    let g: Group = Group::from_json(&raw, &cache).expect("complete group decodes");
    assert_eq!(g.id, "g1");
    let ms = g.members.expect("decoded group lists members");
    assert_eq!(ms.len(), 2);
    assert_eq!(ms[0].id, "m1");
    assert_eq!(ms[0].name, "Ada");
    assert_eq!(ms[1].id, "N/A");
}

#[test]
fn event_decodes_with_principal_and_date() {
    let cache = CacheStorage::new();
    let raw = obj(vec![
        ("id", txt("e1")),
        (
            "properties",
            obj(vec![
                ("principal", relation_field(vec!["who"])),
                (
                    "date",
                    obj(vec![("date", obj(vec![("start", txt("mon")), ("end", txt("tue"))]))]),
                ),
                ("name", title_field("meetup")),
                ("description", rich_field("ed")),
                ("thumbnail", file_field("http://thumb")),
            ]),
        ),
    ]);
    let e: Event = Event::from_json(&raw, &cache).expect("complete event decodes");
    assert_eq!(e.id, "e1");
    assert_eq!(e.date.start, "mon");
    assert_eq!(e.date.end, "tue");
    assert_eq!(e.principal.len(), 1);
    assert_eq!(e.principal[0].id, "N/A");
}

#[test]
fn event_malformed_date_names_start() {
    let cache = CacheStorage::new();
    let raw = obj(vec![
        ("id", txt("e1")),
        (
            "properties",
            obj(vec![
                ("principal", relation_field(vec![])),
                ("name", title_field("meetup")),
                ("description", rich_field("ed")),
                ("thumbnail", file_field("http://thumb")),
            ]),
        ),
    ]);
    assert_eq!(Event::from_json(&raw, &cache).unwrap_err().field, "start");
}

#[test]
fn event_missing_principal_is_named_first() {
    let cache = CacheStorage::new();
    let raw = obj(vec![("id", txt("e1")), ("properties", obj(vec![]))]);
    assert_eq!(Event::from_json(&raw, &cache).unwrap_err().field, "principal");
}

#[test]
fn defaults_use_placeholder_and_empty_collections() {
    let c = Club::default();
    assert_eq!(c.id, "N/A");
    assert_eq!(c.name, "N/A");
    let m = Member::default();
    assert_eq!(m.id, "N/A");
    assert_eq!(m.groups, Some(vec![]));
    assert!(m.club.is_none());
    assert!(m.club_positions.is_empty());
    let g = Group::default();
    assert_eq!(g.members, Some(vec![]));
    let e = Event::default();
    assert_eq!(e.date.start, "N/A");
    assert!(e.principal.is_empty());
    let a = Article::default();
    assert!(a.tags.is_empty());
    let sp = Sponsor::default();
    assert_eq!(sp.url, "N/A");
}
