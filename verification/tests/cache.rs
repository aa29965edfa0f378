use scaict_website_api::cache::CacheStorage;
use scaict_website_api::types::{Club, Group, Member, NotionData, NotionDataType};

fn s(x: &str) -> String {
    x.to_string()
}

fn club(id: &str, name: &str) -> Club {
    Club {
        id: s(id),
        name: s(name),
        description: s("d"),
        school: s("sch"),
        instagram_id: s("ig"),
        icon: s("icon"),
    }
}

fn member(id: &str, name: &str, groups: Option<Vec<Group>>) -> Member {
    Member {
        id: s(id),
        avatar: s("av"),
        name: s(name),
        nickname: s("nick"),
        groups,
        description: s("desc"),
        club: None,
        club_positions: vec![],
    }
}

fn group(id: &str, name: &str, members: Option<Vec<Member>>) -> Group {
    Group { id: s(id), name: s(name), description: s("gd"), members }
}

fn record_id(d: &NotionData) -> &str {
    match d {
        NotionData::Member(m) => &m.id,
        NotionData::Group(g) => &g.id,
        NotionData::Club(c) => &c.id,
        NotionData::Event(e) => &e.id,
        NotionData::Article(a) => &a.id,
        NotionData::Sponsor(sp) => &sp.id,
    }
}

fn find_by_id<'a>(v: &'a [NotionData], id: &str) -> Option<&'a NotionData> {
    v.iter().find(|d| record_id(d) == id)
}

#[test]
fn empty_partitions_answer_not_found() {
    let cache = CacheStorage::new();
    assert!(cache.request("x", &NotionDataType::Member).is_none());
    for kind in NotionDataType::iterator() {
        assert!(cache.request_all(&kind).is_empty());
    }
}

#[test]
fn replace_then_lookup_and_list() {
    let mut cache = CacheStorage::new();
    let batch = vec![
        NotionData::Club(club("c1", "alpha")),
        NotionData::Club(club("c2", "beta")),
    ];
    cache.update(&NotionDataType::Club, batch);

    match cache.request("c1", &NotionDataType::Club) {
        Some(NotionData::Club(c)) => {
            assert_eq!(c.name, "alpha");
            assert_eq!(c.school, "sch");
        },
        _ => panic!("c1 should be cached as a club"),
    }
    match cache.request("c2", &NotionDataType::Club) {
        Some(NotionData::Club(c)) => assert_eq!(c.name, "beta"),
        _ => panic!("c2 should be cached as a club"),
    }
    assert!(cache.request("c3", &NotionDataType::Club).is_none());

    let all = cache.request_all(&NotionDataType::Club);
    assert_eq!(all.len(), 2);
    assert!(find_by_id(&all, "c1").is_some());
    assert!(find_by_id(&all, "c2").is_some());
}

#[test]
fn replace_is_idempotent() {
    let mut cache = CacheStorage::new();
    let batch = || {
        vec![
            NotionData::Club(club("c1", "alpha")),
            NotionData::Club(club("c2", "beta")),
        ]
    };
    cache.update(&NotionDataType::Club, batch());
    let mut first = cache.request_all(&NotionDataType::Club);
    cache.update(&NotionDataType::Club, batch());
    let mut second = cache.request_all(&NotionDataType::Club);

    first.sort_by(|a, b| record_id(a).cmp(record_id(b)));
    second.sort_by(|a, b| record_id(a).cmp(record_id(b)));
    assert_eq!(first, second);
}

#[test]
fn last_write_wins_within_batch() {
    let mut cache = CacheStorage::new();
    let batch = vec![
        NotionData::Club(club("c1", "earlier")),
        NotionData::Club(club("c1", "later")),
    ];
    cache.update(&NotionDataType::Club, batch);
    let all = cache.request_all(&NotionDataType::Club);
    assert_eq!(all.len(), 1);
    match cache.request("c1", &NotionDataType::Club) {
        Some(NotionData::Club(c)) => assert_eq!(c.name, "later"),
        _ => panic!("c1 should be cached as a club"),
    }
}

#[test]
fn replace_discards_previous_contents() {
    let mut cache = CacheStorage::new();
    cache.update(
        &NotionDataType::Club,
        vec![
            NotionData::Club(club("c1", "alpha")),
            NotionData::Club(club("c2", "beta")),
        ],
    );
    cache.update(&NotionDataType::Club, vec![NotionData::Club(club("c3", "gamma"))]);
    let all = cache.request_all(&NotionDataType::Club);
    assert_eq!(all.len(), 1);
    assert!(find_by_id(&all, "c1").is_none());
    assert!(find_by_id(&all, "c3").is_some());
}

#[test]
fn replace_with_empty_batch_empties_partition() {
    let mut cache = CacheStorage::new();
    cache.update(&NotionDataType::Club, vec![NotionData::Club(club("c1", "alpha"))]);
    cache.update(&NotionDataType::Club, vec![]);
    assert!(cache.request_all(&NotionDataType::Club).is_empty());
    assert!(cache.request("c1", &NotionDataType::Club).is_none());
}

#[test]
fn partition_isolation() {
    let mut cache = CacheStorage::new();
    cache.update(
        &NotionDataType::Group,
        vec![NotionData::Group(group("g1", "team", Some(vec![])))],
    );
    let before = cache.request_all(&NotionDataType::Group);
    cache.update(&NotionDataType::Club, vec![NotionData::Club(club("c1", "alpha"))]);
    let after = cache.request_all(&NotionDataType::Group);
    assert_eq!(before, after);
    assert_eq!(after.len(), 1);
}

#[test]
fn cycle_break_applied_at_replace() {
    let mut cache = CacheStorage::new();
    let p_in_g = member("p1", "Ada", None);
    let g_in_p = group("g1", "team", Some(vec![member("p1", "Ada", None)]));
    let person = member("p1", "Ada", Some(vec![g_in_p]));
    let grp = group("g1", "team", Some(vec![p_in_g]));

    cache.update(&NotionDataType::Member, vec![NotionData::Member(person)]);
    cache.update(&NotionDataType::Group, vec![NotionData::Group(grp)]);

    match cache.request("p1", &NotionDataType::Member) {
        Some(NotionData::Member(m)) => {
            let gs = m.groups.expect("stored person keeps a groups list");
            assert_eq!(gs.len(), 1);
            assert_eq!(gs[0].id, "g1");
            assert!(gs[0].members.is_none(), "embedded group must not list members");
        },
        _ => panic!("p1 should be cached as a member"),
    }
    match cache.request("g1", &NotionDataType::Group) {
        Some(NotionData::Group(g)) => {
            let ms = g.members.expect("stored group keeps a members list");
            assert_eq!(ms.len(), 1);
            assert_eq!(ms[0].id, "p1");
            assert!(ms[0].groups.is_none(), "embedded person must not list groups");
        },
        _ => panic!("g1 should be cached as a group"),
    }
}

#[test]
fn reads_around_a_replace_see_old_then_new() {
    let mut cache = CacheStorage::new();
    cache.update(&NotionDataType::Club, vec![NotionData::Club(club("c1", "old"))]);
    let before = cache.request_all(&NotionDataType::Club);
    cache.update(
        &NotionDataType::Club,
        vec![
            NotionData::Club(club("c1", "new")),
            NotionData::Club(club("c2", "fresh")),
        ],
    );
    let after = cache.request_all(&NotionDataType::Club);

    assert_eq!(before.len(), 1);
    match find_by_id(&before, "c1") {
        Some(NotionData::Club(c)) => assert_eq!(c.name, "old"),
        _ => panic!("pre-replace read must be wholly old"),
    }
    assert_eq!(after.len(), 2);
    match find_by_id(&after, "c1") {
        Some(NotionData::Club(c)) => assert_eq!(c.name, "new"),
        _ => panic!("post-replace read must be wholly new"),
    }
}

#[test]
fn scenario_member_lifecycle() {
    let mut cache = CacheStorage::new();
    assert!(cache.request("x", &NotionDataType::Member).is_none());

    cache.update(
        &NotionDataType::Member,
        vec![NotionData::Member(member("x", "Ada", Some(vec![])))],
    );
    match cache.request("x", &NotionDataType::Member) {
        Some(NotionData::Member(m)) => {
            assert_eq!(m.id, "x");
            assert_eq!(m.name, "Ada");
            assert_eq!(m.groups, Some(vec![]));
        },
        _ => panic!("x should be cached as a member"),
    }
    let all = cache.request_all(&NotionDataType::Member);
    assert_eq!(all.len(), 1);
}
