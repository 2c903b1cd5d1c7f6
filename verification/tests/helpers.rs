//! Tests for the record constructors, decimal rendering, deduplication,
//! JSON escaping, path normalization and the profile snapshot.

use std::path::PathBuf;
use workshop_bridge::digits::decimal_string;
use workshop_bridge::item::{ItemRecord, RawItem};
use workshop_bridge::paths::{canonicalize, normalize, NormalizedPathBuf};
use workshop_bridge::user::UserProfile;
use workshop_bridge::util::{dedup_unsorted, escape_single_quoted_json, AsVec};

#[test]
fn decimal_rendering() {
    assert_eq!(decimal_string(0), "0");
    assert_eq!(decimal_string(7), "7");
    assert_eq!(decimal_string(10), "10");
    assert_eq!(decimal_string(1234567890), "1234567890");
    assert_eq!(decimal_string(u64::MAX), "18446744073709551615");
}

#[test]
fn stub_record_displays_the_identifier() {
    let rec = ItemRecord::stub(987654321);
    assert_eq!(rec.id, 987654321);
    assert_eq!(rec.title, "987654321");
    assert_eq!(rec.search_title, "987654321");
    assert_eq!(rec.time_created, 0);
    assert_eq!(rec.time_updated, 0);
    assert_eq!(rec.score_bits, 0);
    assert_eq!(rec.subscriptions, 0);
    assert!(rec.tags.is_empty());
    assert!(rec.preview_url.is_none());
    assert!(rec.local_file.is_none());
}

#[test]
fn enrichment_lowercases_and_defaults() {
    // The search title is genuinely lowercased, not the title handed back.
    let rec = ItemRecord::from_raw(&RawItem {
        id: 1,
        title: String::from("My GREAT Addon"),
        time_created: 5,
        time_updated: 6,
        score_bits: 0,
        tags: vec![String::from("Fun")],
        preview_url: None,
        subscriptions: None,
    });
    assert_eq!(rec.title, "My GREAT Addon");
    assert_eq!(rec.search_title, "my great addon");
    assert_eq!(rec.subscriptions, 0, "absent statistic is treated as zero");

    let rec = ItemRecord::from_raw(&RawItem {
        id: 2,
        title: String::from("ÄØ"),
        time_created: 0,
        time_updated: 0,
        score_bits: 0,
        tags: vec![],
        preview_url: None,
        subscriptions: Some(12),
    });
    assert_eq!(rec.search_title, "äø");
    assert_eq!(rec.subscriptions, 12);
}

#[test]
fn dedup_keeps_first_occurrences_in_order() {
    let mut v: Vec<u64> = vec![3, 1, 3, 2, 1, 3];
    dedup_unsorted(&mut v);
    assert_eq!(v, vec![3, 1, 2]);

    let mut v: Vec<u64> = vec![5, 5];
    dedup_unsorted(&mut v);
    assert_eq!(v, vec![5]);

    let mut v: Vec<u64> = vec![];
    dedup_unsorted(&mut v);
    assert!(v.is_empty());

    let mut v: Vec<u64> = vec![9, 8, 7];
    dedup_unsorted(&mut v);
    assert_eq!(v, vec![9, 8, 7]);
}

#[test]
fn test_escape_single_quoted_json() {
    let dangerous_json = String::from(
        r#"{"test":"don\\🚀🐱‍👤\\'t forget to escape me!🚀🐱‍👤","te🚀🐱‍👤st2":"don't forget to escape me!","test3":"\\🚀🐱‍👤\\\\'''\\\\🚀🐱‍👤\\\\🚀🐱‍👤\\'''''"}"#,
    );

    let definitely_escaped_dangerous_json =
        dangerous_json.clone().replace('\\', "\\\\").replace('\'', "\\'");
    let escape_single_quoted_json_test =
        String::from_utf8(escape_single_quoted_json(&dangerous_json.into_bytes())).unwrap();

    let result = r#"{"test":"don\\\\🚀🐱‍👤\\\\\'t forget to escape me!🚀🐱‍👤","te🚀🐱‍👤st2":"don\'t forget to escape me!","test3":"\\\\🚀🐱‍👤\\\\\\\\\'\'\'\\\\\\\\🚀🐱‍👤\\\\\\\\🚀🐱‍👤\\\\\'\'\'\'\'"}"#;
    assert_eq!(definitely_escaped_dangerous_json, result);
    assert_eq!(escape_single_quoted_json_test, result);
}

#[test]
fn escape_passes_plain_text_through() {
    let plain = String::from("nothing to do here");
    let out = String::from_utf8(escape_single_quoted_json(&plain.clone().into_bytes())).unwrap();
    assert_eq!(out, plain);
}

#[test]
fn as_vec_wraps_one_or_many() {
    let v: Vec<u64> = AsVec::from_item(4).into_vec();
    assert_eq!(v, vec![4]);
    let v: Vec<u64> = AsVec::from_vec(vec![1, 2]).into_vec();
    assert_eq!(v, vec![1, 2]);
}

#[test]
fn normalize_falls_back_to_the_input() {
    // A path that cannot be resolved is handed back unchanged.
    let p = PathBuf::from("definitely/not/a/real/path/here");
    assert_eq!(normalize(p.clone()), p);
    assert_eq!(canonicalize(p.clone()), p);
}

#[test]
fn normalized_path_buf_keeps_the_original() {
    let n = NormalizedPathBuf::from_string(String::from("some/unresolvable/path"));
    assert_eq!(n.path(), &PathBuf::from("some/unresolvable/path"));
    assert_eq!(n.normalized, PathBuf::from("some/unresolvable/path"));
}

#[test]
fn user_profile_snapshot() {
    let avatar_bytes = vec![0u8; 64 * 64 * 4];
    let u = UserProfile::new(
        76561197960287930,
        String::from("gabe"),
        Some(avatar_bytes.clone()),
    );
    assert_eq!(u.id64, 76561197960287930);
    assert_eq!(u.id64_text, "76561197960287930");
    assert_eq!(u.name, "gabe");
    let img = u.avatar.expect("avatar present");
    assert_eq!(img.width, 64);
    assert_eq!(img.height, 64);
    assert_eq!(img.data, avatar_bytes);

    let u = UserProfile::new(3, String::from("anon"), None);
    assert!(u.avatar.is_none());
    assert_eq!(u.id64_text, "3");
}
