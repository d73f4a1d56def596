use vite_rs::asset::{GetFromVite, ViteFile};
use vite_rs::cache::{CacheStrategy, Mode};
use vite_rs::respond::{make_etag, normalize_path, respond, respond_to, Response};
use vite_rs::serve::ViteServe;
use vite_rs::table::{AssetTable, TableError};

fn file(content: &str, content_type: &str) -> ViteFile {
    ViteFile::from_bytes(content.as_bytes().to_vec(), content_type.to_string()).with_content_hash()
}

fn two_files() -> AssetTable {
    let mut table = AssetTable::new();
    table.insert("index.html".to_string(), file("<html></html>", "text/html")).unwrap();
    table.insert("style.css".to_string(), file("body { color: red; }", "text/css")).unwrap();
    table
}

fn assert_empty_404(response: &Response) {
    assert_eq!(response.status, 404);
    assert!(response.body.is_empty());
    assert_eq!(response.content_type, None);
    assert_eq!(response.content_length, None);
    assert_eq!(response.last_modified, None);
    assert_eq!(response.etag, None);
    assert_eq!(response.cache_control, None);
}

#[test]
fn known_key_gives_200_with_exact_length() {
    let table = two_files();
    for key in table.keys() {
        let response = table.respond(&key, None, Mode::Production, &CacheStrategy::Eager);
        assert_eq!(response.status, 200);
        assert_eq!(response.content_length, Some(response.body.len() as u64));
    }
    let response = table.respond("style.css", None, Mode::Production, &CacheStrategy::Eager);
    assert_eq!(response.body, b"body { color: red; }".to_vec());
    assert_eq!(response.content_length, Some(20));
    assert_eq!(response.content_type.as_deref(), Some("text/css"));
    assert_eq!(response.cache_control.as_deref(), Some("max-age=0, must-revalidate"));
    assert_eq!(response.last_modified, None);
}

#[test]
fn unknown_key_gives_404_with_empty_body() {
    let table = two_files();
    assert_empty_404(&table.respond("missing.js", None, Mode::Production, &CacheStrategy::Eager));
    assert_empty_404(&table.respond(
        "missing.js",
        Some("\"anything\""),
        Mode::Development,
        &CacheStrategy::Lazy,
    ));
    assert_empty_404(&table.respond("/.vite/deps", None, Mode::Production, &CacheStrategy::Eager));
}

#[test]
fn own_etag_gives_304_with_empty_body() {
    let table = two_files();
    for mode in [Mode::Production, Mode::Development] {
        for key in table.keys() {
            let first = table.respond(&key, None, mode, &CacheStrategy::Eager);
            let tag = first.etag.clone().unwrap();
            let second = table.respond(&key, Some(&tag), mode, &CacheStrategy::Eager);
            assert_eq!(second.status, 304);
            assert!(second.body.is_empty());
            assert_eq!(second.content_length, None);
            assert_eq!(second.content_type, None);
            assert_eq!(second.etag, Some(tag));
            assert_eq!(second.cache_control.as_deref(), Some("max-age=0, must-revalidate"));
        }
    }
}

#[test]
fn other_etag_gives_200() {
    let table = two_files();
    let response =
        table.respond("index.html", Some("\"stale\""), Mode::Production, &CacheStrategy::Eager);
    assert_eq!(response.status, 200);
    assert_eq!(response.body, b"<html></html>".to_vec());
}

#[test]
fn file_without_hash_has_no_etag_and_is_never_304() {
    let plain = ViteFile::from_bytes(b"test".to_vec(), "text/plain".to_string());
    let response = respond_to(Some(plain), Mode::Production, &CacheStrategy::Eager, Some("\"\""));
    assert_eq!(response.status, 200);
    assert_eq!(response.etag, None);
    assert_eq!(response.content_length, Some(4));
    assert_eq!(response.body, b"test".to_vec());
}

#[test]
fn etag_is_strong_in_production_and_weak_in_development() {
    let hash = "ABCDEF".to_string();
    assert_eq!(make_etag(Mode::Production, &hash), "\"ABCDEF\"");
    assert_eq!(make_etag(Mode::Development, &hash), "W/\"ABCDEF\"");
    let table = two_files();
    let strong = table.respond("index.html", None, Mode::Production, &CacheStrategy::Eager);
    let weak = table.respond("index.html", None, Mode::Development, &CacheStrategy::Eager);
    let strong = strong.etag.unwrap();
    let weak = weak.etag.unwrap();
    assert_eq!(weak, format!("W/{}", strong));
    assert_eq!(strong.len(), 66);
    // a weak tag does not match in production, where tags are compared exactly
    let response = table.respond("index.html", Some(&weak), Mode::Production, &CacheStrategy::Eager);
    assert_eq!(response.status, 200);
}

#[test]
fn last_modified_is_passed_on() {
    let mut with_date = ViteFile::from_bytes(b"x".to_vec(), "text/plain".to_string());
    with_date.last_modified = Some("Thu, 01 Jan 1970 00:00:00 GMT".to_string());
    let response = respond_to(Some(with_date), Mode::Production, &CacheStrategy::NoCache, None);
    assert_eq!(response.last_modified.as_deref(), Some("Thu, 01 Jan 1970 00:00:00 GMT"));
    assert_eq!(response.cache_control.as_deref(), Some("no-cache"));
}

#[test]
fn content_length_follows_the_body() {
    let mut odd = ViteFile::from_bytes(b"12345".to_vec(), "text/plain".to_string());
    odd.content_length = 99;
    let response = respond_to(Some(odd), Mode::Production, &CacheStrategy::Eager, None);
    assert_eq!(response.content_length, Some(5));
}

#[test]
fn path_is_normalized() {
    assert_eq!(normalize_path("/"), "index.html");
    assert_eq!(normalize_path(""), "index.html");
    assert_eq!(normalize_path("///"), "index.html");
    assert_eq!(normalize_path("/?v=1"), "index.html");
    assert_eq!(normalize_path("#top"), "index.html");
    assert_eq!(normalize_path("/style.css"), "style.css");
    assert_eq!(normalize_path("style.css"), "style.css");
    assert_eq!(normalize_path("/assets/index-BZiJcslM.js?v=abc#frag"), "assets/index-BZiJcslM.js");
    assert_eq!(normalize_path("/a#b?c"), "a");
    assert_eq!(normalize_path("//a//b/"), "a//b/");
    assert_eq!(normalize_path("/caf\u{e9}/\u{1F600}.png?x"), "caf\u{e9}/\u{1F600}.png");
}

#[test]
fn serves_two_embedded_files_and_revalidates() {
    let service = ViteServe::new(two_files(), Mode::Production);
    let index = service.serve("/", None);
    assert_eq!(index.status, 200);
    assert_eq!(index.body, b"<html></html>".to_vec());
    let style = service.serve("/style.css", None);
    assert_eq!(style.status, 200);
    assert_eq!(style.content_type.as_deref(), Some("text/css"));
    let tag = index.etag.unwrap();
    let again = service.serve("/", Some(&tag));
    assert_eq!(again.status, 304);
    assert!(again.body.is_empty());
}

#[test]
fn table_refuses_duplicates_and_wrong_lengths() {
    let mut table = two_files();
    assert_eq!(table.len(), 2);
    assert_eq!(
        table.insert("index.html".to_string(), file("other", "text/html")),
        Err(TableError::DuplicateKey)
    );
    let mut wrong = ViteFile::from_bytes(b"abc".to_vec(), "text/plain".to_string());
    wrong.content_length = 4;
    assert_eq!(table.insert("wrong.txt".to_string(), wrong), Err(TableError::LengthMismatch));
    assert_eq!(table.len(), 2);
    assert!(table.contains_key("style.css"));
    assert!(!table.contains_key("wrong.txt"));
    assert_eq!(table.keys(), vec!["index.html".to_string(), "style.css".to_string()]);
    let kept = table.lookup("index.html").unwrap();
    assert_eq!(kept.bytes, b"<html></html>".to_vec());
    assert!(table.lookup("nothing").is_none());
}

#[test]
fn aliases_serve_the_same_bytes() {
    let mut table = AssetTable::new();
    table.insert("app/pack1.ts".to_string(), file("console.log(1)", "application/javascript")).unwrap();
    table
        .insert("assets/pack1-B2m_tRuS.js".to_string(), file("console.log(1)", "application/javascript"))
        .unwrap();
    assert_eq!(
        table.get("app/pack1.ts").unwrap().bytes,
        table.get("assets/pack1-B2m_tRuS.js").unwrap().bytes
    );
}

struct Changing;

impl GetFromVite for Changing {
    fn get(&self, file_path: &str) -> Option<ViteFile> {
        if file_path == "index.html" {
            let mut file = ViteFile::from_bytes(b"dev".to_vec(), "text/html".to_string());
            file.content_hash = Some("volatile".to_string());
            Some(file)
        } else {
            None
        }
    }
}

#[test]
fn any_source_of_files_can_be_served() {
    let response = respond(&Changing, "/", None, Mode::Development, &CacheStrategy::NoCache);
    assert_eq!(response.status, 200);
    assert_eq!(response.etag.as_deref(), Some("W/\"volatile\""));
    assert_eq!(response.cache_control.as_deref(), Some("no-cache"));
    let again = respond(
        &Changing,
        "/",
        Some("W/\"volatile\""),
        Mode::Development,
        &CacheStrategy::NoCache,
    );
    assert_eq!(again.status, 304);
    let missing = respond(&Changing, "/nothing", None, Mode::Development, &CacheStrategy::NoCache);
    assert_eq!(missing.status, 404);
    assert!(missing.body.is_empty());
}

#[test]
fn table_refuses_keys_that_no_request_reaches() {
    let mut table = AssetTable::new();
    for key in ["", "/index.html", "a?b", "a#b", "/", "?"] {
        assert_eq!(
            table.insert(key.to_string(), file("x", "text/plain")),
            Err(TableError::KeyNotCanonical)
        );
    }
    assert_eq!(table.len(), 0);
    // the key is looked at before the file
    let mut wrong = ViteFile::from_bytes(b"abc".to_vec(), "text/plain".to_string());
    wrong.content_length = 4;
    assert_eq!(table.insert("/a".to_string(), wrong), Err(TableError::KeyNotCanonical));
    assert_eq!(table.insert("a/b c.txt".to_string(), file("x", "text/plain")), Ok(()));
    assert_eq!(table.insert("index.html".to_string(), file("x", "text/html")), Ok(()));
    assert_eq!(table.respond("a/b c.txt", None, Mode::Production, &CacheStrategy::Eager).status, 200);
    assert_eq!(table.respond("///a/b c.txt?q", None, Mode::Production, &CacheStrategy::Eager).status, 200);
}
