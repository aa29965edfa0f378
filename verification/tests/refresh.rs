use scaict_website_api::cache::CacheStorage;
use scaict_website_api::client::decode_response;
use scaict_website_api::raw::RawValue;
use scaict_website_api::types::{NotionData, NotionDataType};

fn txt(v: &str) -> RawValue {
    RawValue::Text(v.to_string())
}

fn lst(items: Vec<RawValue>) -> RawValue {
    RawValue::List(items)
}

fn obj(pairs: Vec<(&str, RawValue)>) -> RawValue {
    RawValue::Object(pairs.into_iter().map(|(k, v)| (k.to_string(), v)).collect())
}

fn title_field(v: &str) -> RawValue {
    obj(vec![("title", lst(vec![obj(vec![("plain_text", txt(v))])]))])
}

fn rich_field(v: &str) -> RawValue {
    obj(vec![("rich_text", lst(vec![obj(vec![("plain_text", txt(v))])]))])
}

fn file_field(url: &str) -> RawValue {
    obj(vec![("files", lst(vec![obj(vec![("external", obj(vec![("url", txt(url))]))])]))])
}

fn club_json(id: &str, name: &str) -> RawValue {
    obj(vec![
        ("id", txt(id)),
        (
            "properties",
            obj(vec![
                ("name", title_field(name)),
                ("description", rich_field("a club")),
                ("school", obj(vec![("select", obj(vec![("name", txt("school"))]))])),
                ("instagram_id", rich_field("insta")),
                ("icon", file_field("http://icon")),
            ]),
        ),
    ])
}

#[test]
fn refresh_visits_kinds_in_dependency_order() {
    let order = NotionDataType::iterator();
    assert_eq!(
        order,
        vec![
            NotionDataType::Club,
            NotionDataType::Group,
            NotionDataType::Member,
            NotionDataType::Event,
            NotionDataType::Article,
            NotionDataType::Sponsor,
        ]
    );
}

#[test]
fn decode_response_decodes_every_record() {
    let cache = CacheStorage::new();
    let response = obj(vec![(
        "results",
        lst(vec![club_json("c1", "alpha"), club_json("c2", "beta")]),
    )]);
    let batch = decode_response(&NotionDataType::Club, &response, &cache)
        .expect("a response with a record list decodes");
    assert_eq!(batch.len(), 2);
    match &batch[0] {
        NotionData::Club(c) => assert_eq!(c.name, "alpha"),
        _ => panic!("first record should be a club"),
    }
    match &batch[1] {
        NotionData::Club(c) => assert_eq!(c.name, "beta"),
        _ => panic!("second record should be a club"),
    }
}

#[test]
fn decode_response_substitutes_default_for_malformed_record() {
    let cache = CacheStorage::new();
    let response = obj(vec![(
        "results",
        lst(vec![club_json("c1", "alpha"), obj(vec![("id", txt("broken"))])]),
    )]);
    let batch = decode_response(&NotionDataType::Club, &response, &cache)
        .expect("one malformed record does not poison the batch");
    assert_eq!(batch.len(), 2);
    match &batch[1] {
        NotionData::Club(c) => {
            assert_eq!(c.id, "N/A");
            assert_eq!(c.name, "N/A");
        },
        _ => panic!("malformed record should decode to the default club"),
    }
}

#[test]
fn decode_response_without_record_list_fails() {
    let cache = CacheStorage::new();
    let response = obj(vec![("object", txt("error"))]);
    assert!(decode_response(&NotionDataType::Club, &response, &cache).is_err());
}

#[test]
fn refresh_pass_installs_partitions() {
    let mut cache = CacheStorage::new();
    for kind in NotionDataType::iterator() {
        let response = match kind {
            NotionDataType::Club => obj(vec![("results", lst(vec![club_json("c1", "alpha")]))]),
            _ => obj(vec![("results", lst(vec![]))]),
        };
        let batch = decode_response(&kind, &response, &cache).expect("each response decodes");
        cache.update(&kind, batch);
    }
    assert_eq!(cache.request_all(&NotionDataType::Club).len(), 1);
    assert!(cache.request("c1", &NotionDataType::Club).is_some());
    assert!(cache.request_all(&NotionDataType::Member).is_empty());
}
