use vite_rs::asset::ViteFile;
use vite_rs::cache::{resolve, CacheStrategy, Mode};
use vite_rs::respond::Response;
use vite_rs::serve::ViteServe;
use vite_rs::supervisor::SupervisorError;
use vite_rs::table::AssetTable;

fn one_file() -> AssetTable {
    let mut table = AssetTable::new();
    table
        .insert("index.html".to_string(), ViteFile::from_bytes(b"hi".to_vec(), "text/html".to_string()))
        .unwrap();
    table
}

#[test]
fn each_strategy_has_its_header_value() {
    assert_eq!(CacheStrategy::Eager.header_value(), "max-age=0, must-revalidate");
    assert_eq!(CacheStrategy::Lazy.header_value(), "max-age=0, stale-while-revalidate=604800");
    assert_eq!(CacheStrategy::Custom("x".to_string()).header_value(), "x");
    assert_eq!(CacheStrategy::NoCache.header_value(), "no-cache");
    assert_eq!(CacheStrategy::Custom(String::new()).header_value(), "");
}

#[test]
fn default_strategy_depends_on_the_mode() {
    assert_eq!(CacheStrategy::default_for(Mode::Development).header_value(), "no-cache");
    assert_eq!(
        CacheStrategy::default_for(Mode::Production).header_value(),
        "max-age=0, must-revalidate"
    );
    let production = ViteServe::new(one_file(), Mode::Production);
    assert_eq!(
        production.serve("/", None).cache_control.as_deref(),
        Some("max-age=0, must-revalidate")
    );
    let development = ViteServe::new(one_file(), Mode::Development);
    assert_eq!(development.serve("/", None).cache_control.as_deref(), Some("no-cache"));
}

#[test]
fn lazy_strategy_is_applied() {
    let service = ViteServe::new(one_file(), Mode::Production).with_cache_strategy(CacheStrategy::Lazy);
    let response = service.serve("/", None);
    assert_eq!(response.status, 200);
    assert_eq!(
        response.cache_control.as_deref(),
        Some("max-age=0, stale-while-revalidate=604800")
    );
}

#[test]
fn custom_strategy_is_applied() {
    let service = ViteServe::new(one_file(), Mode::Production)
        .with_cache_strategy(CacheStrategy::Custom("asdf".to_string()));
    let response = service.serve("/", None);
    assert_eq!(response.status, 200);
    assert_eq!(response.cache_control.as_deref(), Some("asdf"));
    assert_eq!(service.cache_strategy().header_value(), "asdf");
}

#[test]
fn cloned_strategy_is_the_same() {
    let custom = CacheStrategy::Custom("private".to_string());
    assert_eq!(custom.clone().header_value(), "private");
    assert_eq!(CacheStrategy::Lazy.clone().header_value(), CacheStrategy::Lazy.header_value());
}

#[test]
fn upstream_answer_is_relayed_with_the_cache_header() {
    let service = ViteServe::new(AssetTable::new(), Mode::Development);
    let upstream = Response {
        status: 201,
        body: b"made".to_vec(),
        content_type: Some("text/plain".to_string()),
        content_length: Some(4),
        last_modified: None,
        etag: Some("W/\"1\"".to_string()),
        cache_control: Some("public".to_string()),
    };
    let response = service.relay(Ok(upstream));
    assert_eq!(response.status, 201);
    assert_eq!(response.body, b"made".to_vec());
    assert_eq!(response.content_type.as_deref(), Some("text/plain"));
    assert_eq!(response.content_length, Some(4));
    assert_eq!(response.etag.as_deref(), Some("W/\"1\""));
    assert_eq!(response.cache_control.as_deref(), Some("no-cache"));
}

#[test]
fn unreachable_upstream_gives_502() {
    let service = ViteServe::new(AssetTable::new(), Mode::Development);
    let response = service.relay(Err(SupervisorError::UpstreamUnavailable));
    assert_eq!(response.status, 502);
    assert!(response.body.is_empty());
    assert_eq!(response.cache_control, None);
}

#[test]
fn resolve_depends_on_the_strategy_alone() {
    let small = ViteFile::from_bytes(b"a".to_vec(), "text/plain".to_string());
    let other = ViteFile::from_bytes(b"<html></html>".to_vec(), "text/html".to_string()).with_content_hash();
    for record in [&small, &other] {
        assert_eq!(resolve(&CacheStrategy::Eager, record), "max-age=0, must-revalidate");
        assert_eq!(resolve(&CacheStrategy::Lazy, record), "max-age=0, stale-while-revalidate=604800");
        assert_eq!(resolve(&CacheStrategy::Custom("x".to_string()), record), "x");
        assert_eq!(resolve(&CacheStrategy::NoCache, record), "no-cache");
    }
}
