use std::cmp::Ordering;

use alfred_caniuse_rs::{Channel, CompilerVersionData, Date, Db, FeatureData};

fn version(number: &str, channel: Channel, date: Option<&str>) -> CompilerVersionData {
    CompilerVersionData {
        number: number.to_owned(),
        channel,
        release_date: date.map(str::to_owned),
        ..Default::default()
    }
}

fn feature(slug: &str, title: &str) -> FeatureData {
    FeatureData { slug: slug.to_owned(), title: title.to_owned(), ..Default::default() }
}

fn db_with(versions: Vec<CompilerVersionData>, features: Vec<FeatureData>) -> Db {
    let mut db = Db::new("https://caniuse.rs".to_owned());
    db.versions = versions.into_iter().map(|v| (v.number.clone(), v)).collect();
    db.features = features.into_iter().map(|f| (f.slug.clone(), f)).collect();
    db
}

#[test]
fn channel_order_and_names() {
    assert!(Channel::Stable < Channel::Beta && Channel::Beta < Channel::Nightly);
    assert_eq!(Channel::Stable.rank(), 0);
    assert_eq!(Channel::Nightly.rank(), 2);
    assert_eq!(Channel::Beta.compare(&Channel::Stable), Ordering::Greater);
    assert_eq!(Channel::Beta.compare(&Channel::Beta), Ordering::Equal);
    assert_eq!(Channel::default(), Channel::Stable);
    assert_eq!(Channel::Nightly.name(), "nightly");
    assert_eq!(Channel::Stable.name(), "stable");
    assert_eq!(Channel::Beta.name(), "beta");
}

#[test]
fn release_date_parses_iso_dates() {
    let v = version("1.37.0", Channel::Stable, Some("2019-08-15"));
    assert_eq!(v.release_date(), Some(Date { year: 2019, month: 8, day: 15 }));
    assert_eq!(version("x", Channel::Stable, Some("15/08/2019")).release_date(), None);
    assert_eq!(version("x", Channel::Stable, Some("2019-02-30")).release_date(), None);
    assert_eq!(version("x", Channel::Stable, None).release_date(), None);
}

#[test]
fn date_compare_is_calendar_order() {
    let a = Date { year: 2019, month: 8, day: 15 };
    let b = Date { year: 2019, month: 9, day: 1 };
    let c = Date { year: 2020, month: 1, day: 1 };
    assert_eq!(a.compare(&b), Ordering::Less);
    assert_eq!(c.compare(&b), Ordering::Greater);
    assert_eq!(a.compare(&a), Ordering::Equal);
}

#[test]
fn recency_cmp_channel_then_date() {
    let old = version("1.36.0", Channel::Stable, Some("2019-07-04"));
    let new = version("1.37.0", Channel::Stable, Some("2019-08-15"));
    let beta = version("1.38.0", Channel::Beta, Some("2019-01-01"));
    let undated = version("1.39.0", Channel::Stable, None);
    assert_eq!(old.recency_cmp(&new), Ordering::Less);
    assert_eq!(new.recency_cmp(&old), Ordering::Greater);
    assert_eq!(beta.recency_cmp(&new), Ordering::Greater);
    assert_eq!(undated.recency_cmp(&new), Ordering::Equal);
}

#[test]
fn versions_preview_takes_ten_most_recent() {
    let mut versions = Vec::new();
    for minor in 30..42 {
        let date = format!("2019-{:02}-01", minor - 29);
        versions.push(version(&format!("1.{minor}.0"), Channel::Stable, Some(&date)));
    }
    versions.push(version("1.42.0", Channel::Nightly, Some("2019-01-01")));
    let db = db_with(versions, vec![]);
    let preview: Vec<&str> = db.versions_preview().iter().map(|v| v.number.as_str()).collect();
    assert_eq!(
        preview,
        vec![
            "1.42.0", "1.41.0", "1.40.0", "1.39.0", "1.38.0", "1.37.0", "1.36.0", "1.35.0",
            "1.34.0", "1.33.0"
        ]
    );
}

#[test]
fn versions_preview_of_few_versions() {
    let db = db_with(
        vec![
            version("1.0.0", Channel::Stable, None),
            version("1.1.0", Channel::Stable, Some("2015-06-25")),
        ],
        vec![],
    );
    let preview: Vec<&str> = db.versions_preview().iter().map(|v| v.number.as_str()).collect();
    assert_eq!(preview, vec!["1.1.0", "1.0.0"]);
    assert!(db_with(vec![], vec![]).versions_preview().is_empty());
}

#[test]
fn get_feature_with_version() {
    let mut f = feature("let_else", "let-else statements");
    f.version_number = Some("1.65.0".to_owned());
    let db = db_with(vec![version("1.65.0", Channel::Stable, Some("2022-11-03"))], vec![f]);
    let (feat, ver) = db.get_feature("let_else").unwrap();
    assert_eq!(feat.title, "let-else statements");
    assert_eq!(ver.unwrap().number, "1.65.0");
}

#[test]
fn get_feature_dangling_version() {
    let mut f = feature("gats", "generic associated types");
    f.version_number = Some("9.99.0".to_owned());
    let db = db_with(vec![], vec![f]);
    let (feat, ver) = db.get_feature("gats").unwrap();
    assert_eq!(feat.slug, "gats");
    assert!(ver.is_none());
}

#[test]
fn get_feature_unstable_and_missing() {
    let db = db_with(vec![], vec![feature("never_type", "! type")]);
    let (_, ver) = db.get_feature("never_type").unwrap();
    assert!(ver.is_none());
    assert!(db.get_feature("nope").is_none());
}

#[test]
fn lookup_matches_names_in_lower_case() {
    let db = db_with(vec![], vec![feature("async_await", "Async/Await"), feature("x", "Other")]);
    let hits: Vec<&str> =
        db.lookup("async/await", &vec![false, false]).iter().map(|f| f.slug.as_str()).collect();
    assert_eq!(hits, vec!["async_await"]);
}

#[test]
fn lookup_lists_once_per_matching_item_and_alias() {
    let mut f = feature("min_const_generics", "const generics");
    f.items = vec!["Array::map".to_owned(), "array::IntoIter".to_owned()];
    f.aliases = vec!["arrays".to_owned()];
    let db = db_with(vec![], vec![f]);
    assert_eq!(db.lookup("array", &vec![]).len(), 3);
    assert_eq!(db.lookup("array", &vec![true]).len(), 4);
    assert_eq!(db.lookup("const", &vec![true]).len(), 1);
    assert_eq!(db.lookup("zzz", &vec![false]).len(), 0);
    assert_eq!(db.lookup("zzz", &vec![true]).len(), 1);
}

#[test]
fn lookup_matches_flag() {
    let mut f = feature("a", "Title");
    f.flag = Some("Try_Blocks".to_owned());
    let db = db_with(vec![], vec![f]);
    assert_eq!(db.lookup("try_blocks", &vec![]).len(), 1);
}

#[test]
fn version_heading_and_blog_url() {
    let mut v = version("1.37.0", Channel::Beta, None);
    assert_eq!(v.heading(), "v1.37.0 (beta)");
    assert_eq!(v.blog_post_url(), None);
    v.blog_post_path = Some("2019/08/15/Rust-1.37.0.html".to_owned());
    assert_eq!(
        v.blog_post_url().unwrap(),
        "https://blog.rust-lang.org/2019/08/15/Rust-1.37.0.html"
    );
}

#[test]
fn feature_row_texts() {
    let mut f = feature("let_else", "let-else");
    assert_eq!(f.subtitle(), "unstable");
    assert_eq!(f.page_url("https://caniuse.rs"), "https://caniuse.rs/features/let_else");
    assert_eq!(f.large_text(), " ");
    assert_eq!(f.doc_url(), None);
    f.version_number = Some("1.65.0".to_owned());
    f.items = vec!["a".to_owned(), "b".to_owned(), "c".to_owned()];
    f.doc_path = Some("std/keyword.let.html".to_owned());
    assert_eq!(f.subtitle(), "since v1.65.0");
    assert_eq!(f.large_text(), "a\nb\nc");
    assert_eq!(f.doc_url().unwrap(), "https://doc.rust-lang.org/std/keyword.let.html");
}

#[test]
fn fill_slugs_uses_keys() {
    let mut db = Db::new("https://caniuse.rs".to_owned());
    db.features = vec![
        ("let_else".to_owned(), feature("", "let-else")),
        ("gats".to_owned(), feature("stale", "GATs")),
    ];
    db.fill_slugs();
    assert_eq!(db.features.len(), 2);
    assert_eq!(db.features[0].0, "let_else");
    assert_eq!(db.features[0].1.slug, "let_else");
    assert_eq!(db.features[0].1.title, "let-else");
    assert_eq!(db.features[1].1.slug, "gats");
    assert_eq!(db.base_url, "https://caniuse.rs");
}

#[test]
fn lookup_skips_shadowed_keys() {
    let mut db = Db::new("https://caniuse.rs".to_owned());
    db.features = vec![
        ("let_else".to_owned(), feature("let_else", "let-else")),
        ("let_else".to_owned(), feature("let_else", "let-else again")),
    ];
    let hits = db.lookup("let", &vec![]);
    assert_eq!(hits.len(), 1);
    assert_eq!(hits[0].title, "let-else");
    assert_eq!(db.get_feature("let_else").unwrap().0.title, "let-else");
}

#[test]
fn versions_preview_skips_shadowed_keys() {
    let mut db = Db::new("https://caniuse.rs".to_owned());
    db.versions = vec![
        ("1.0.0".to_owned(), version("1.0.0", Channel::Stable, Some("2015-05-15"))),
        ("1.0.0".to_owned(), version("1.0.0-dup", Channel::Nightly, Some("2016-01-01"))),
        ("1.1.0".to_owned(), version("1.1.0", Channel::Stable, Some("2015-06-25"))),
    ];
    let preview: Vec<&str> = db.versions_preview().iter().map(|v| v.number.as_str()).collect();
    assert_eq!(preview, vec!["1.1.0", "1.0.0"]);
}
