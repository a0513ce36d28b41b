use neocities::info::{info, texts, Info};
use neocities::json::Json;
use neocities::listing::{entry, listing, member_integer, member_text, text, ListEntry};

fn t(s: &str) -> Json {
    Json::Text(s.to_string())
}

fn object(members: Vec<(&str, Json)>) -> Json {
    Json::Object(
        members
            .into_iter()
            .map(|(name, value)| (name.to_string(), value))
            .collect(),
    )
}

fn file_json() -> Json {
    object(vec![
        ("path", t("index.html")),
        ("size", Json::Integer(100)),
        ("updated_at", t("Mon, 01 Jan 2024 00:00:00 -0000")),
        ("sha1_hash", t("abc")),
    ])
}

#[test]
fn entry_with_size_and_hash_is_a_file() {
    assert_eq!(
        entry(&file_json()),
        Some(ListEntry::File {
            path: "index.html".to_string(),
            size: 100,
            updated_at: "Mon, 01 Jan 2024 00:00:00 -0000".to_string(),
            sha1_hash: "abc".to_string(),
        })
    );
}

#[test]
fn entry_without_size_and_hash_is_a_directory() {
    let json = object(vec![("path", t("sub")), ("updated_at", t("Tue"))]);
    assert_eq!(
        entry(&json),
        Some(ListEntry::Directory {
            path: "sub".to_string(),
            updated_at: "Tue".to_string(),
        })
    );
}

#[test]
fn entry_lacking_one_of_size_and_hash_is_a_directory() {
    let json = object(vec![
        ("path", t("sub")),
        ("updated_at", t("Tue")),
        ("size", Json::Integer(1)),
    ]);
    assert_eq!(
        entry(&json),
        Some(ListEntry::Directory {
            path: "sub".to_string(),
            updated_at: "Tue".to_string(),
        })
    );
    let json = object(vec![
        ("path", t("sub")),
        ("updated_at", t("Tue")),
        ("size", Json::OtherNumber),
        ("sha1_hash", t("abc")),
    ]);
    assert_eq!(
        entry(&json),
        Some(ListEntry::Directory {
            path: "sub".to_string(),
            updated_at: "Tue".to_string(),
        })
    );
}

#[test]
fn entry_without_path_or_date_is_none() {
    assert_eq!(entry(&object(vec![("path", t("a"))])), None);
    assert_eq!(entry(&object(vec![("updated_at", t("a"))])), None);
    assert_eq!(
        entry(&object(vec![("path", Json::Integer(1)), ("updated_at", t("a"))])),
        None
    );
    assert_eq!(entry(&t("a")), None);
}

#[test]
fn listing_keeps_the_order_of_the_payload() {
    let json = Json::Array(vec![
        object(vec![("path", t("b")), ("updated_at", t("1"))]),
        file_json(),
        object(vec![("path", t("a")), ("updated_at", t("2"))]),
    ]);
    let entries = listing(&json).expect("a listing");
    assert_eq!(entries.len(), 3);
    assert_eq!(
        entries[0],
        ListEntry::Directory {
            path: "b".to_string(),
            updated_at: "1".to_string()
        }
    );
    assert!(matches!(&entries[1], ListEntry::File { path, .. } if path == "index.html"));
    assert_eq!(
        entries[2],
        ListEntry::Directory {
            path: "a".to_string(),
            updated_at: "2".to_string()
        }
    );
}

#[test]
fn listing_of_an_empty_array_is_empty() {
    assert_eq!(listing(&Json::Array(vec![])), Some(vec![]));
}

#[test]
fn listing_with_one_bad_item_is_none() {
    let json = Json::Array(vec![file_json(), Json::Null]);
    assert_eq!(listing(&json), None);
    assert_eq!(listing(&file_json()), None);
}

#[test]
fn text_reads_only_texts() {
    assert_eq!(text(&t("abc")), Some("abc".to_string()));
    assert_eq!(text(&Json::Integer(1)), None);
    assert_eq!(text(&Json::Null), None);
}

#[test]
fn members_are_read_by_kind() {
    let json = object(vec![("a", t("x")), ("n", Json::Integer(-4))]);
    assert_eq!(member_text(&json, "a"), Some("x".to_string()));
    assert_eq!(member_text(&json, "n"), None);
    assert_eq!(member_text(&json, "z"), None);
    assert_eq!(member_integer(&json, "n"), Some(-4));
    assert_eq!(member_integer(&json, "a"), None);
    assert_eq!(member_integer(&json, "z"), None);
}

#[test]
fn texts_reads_an_array_of_texts() {
    assert_eq!(
        texts(&Json::Array(vec![t("a"), t("b")])),
        Some(vec!["a".to_string(), "b".to_string()])
    );
    assert_eq!(texts(&Json::Array(vec![])), Some(vec![]));
    assert_eq!(texts(&Json::Array(vec![t("a"), Json::Integer(1)])), None);
    assert_eq!(texts(&t("a")), None);
}

fn info_members() -> Vec<(&'static str, Json)> {
    vec![
        ("sitename", t("youpi")),
        ("hits", Json::Integer(5072)),
        ("created_at", t("Sat, 29 Jun 2013 10:11:38 +0000")),
        ("last_updated", t("Tue, 23 Jul 2013 20:04:03 +0000")),
        ("domain", Json::Null),
        ("tags", Json::Array(vec![t("anime"), t("art")])),
    ]
}

#[test]
fn info_reads_every_member() {
    assert_eq!(
        info(&object(info_members())),
        Some(Info {
            site_name: "youpi".to_string(),
            hits: 5072,
            created_at: "Sat, 29 Jun 2013 10:11:38 +0000".to_string(),
            last_updated: "Tue, 23 Jul 2013 20:04:03 +0000".to_string(),
            domain: None,
            tags: vec!["anime".to_string(), "art".to_string()],
        })
    );
}

#[test]
fn info_reads_a_domain_that_is_given() {
    let mut members = info_members();
    members[4] = ("domain", t("example.org"));
    let read = info(&object(members)).expect("site info");
    assert_eq!(read.domain, Some("example.org".to_string()));
}

#[test]
fn info_accepts_a_domain_left_out() {
    let mut members = info_members();
    members.remove(4);
    let read = info(&object(members)).expect("site info");
    assert_eq!(read.domain, None);
}

#[test]
fn info_refuses_a_domain_of_another_kind() {
    let mut members = info_members();
    members[4] = ("domain", Json::Integer(1));
    assert_eq!(info(&object(members)), None);
}

#[test]
fn info_needs_every_other_member() {
    for missing in [0, 1, 2, 3, 5] {
        let mut members = info_members();
        members.remove(missing);
        assert_eq!(info(&object(members)), None, "without member {}", missing);
    }
    let mut members = info_members();
    members[1] = ("hits", Json::OtherNumber);
    assert_eq!(info(&object(members)), None);
    let mut members = info_members();
    members[5] = ("tags", Json::Array(vec![Json::Null]));
    assert_eq!(info(&object(members)), None);
}
