use vite_rs::html::{
    append_bytes, get_script_tag_sources, source_of_capture, update_src_attributes, Found,
    HtmlError,
};

fn rewrite(page: &str) -> String {
    let mut data = page.as_bytes().to_vec();
    update_src_attributes(&mut data).unwrap();
    String::from_utf8(data).unwrap()
}

#[test]
fn src_of_single_bundled_script_is_rewritten() {
    assert_eq!(
        rewrite("<html><script src=\"file.js\" data-bundle></script></html>"),
        "<html><script src=\"/.cook/file.js/bundle.js\" data-bundle></script></html>"
    );
}

#[test]
fn src_of_every_bundled_script_is_rewritten() {
    assert_eq!(
        rewrite("<html><script src=\"file.js\" data-bundle></script><script src=\"file2.js\" data-bundle></script></html>"),
        "<html><script src=\"/.cook/file.js/bundle.js\" data-bundle></script><script src=\"/.cook/file2.js/bundle.js\" data-bundle></script></html>"
    );
}

#[test]
fn script_without_data_bundle_is_left_alone() {
    assert_eq!(
        rewrite("<html><script src=\"file.js\"></script></html>"),
        "<html><script src=\"file.js\"></script></html>"
    );
    assert_eq!(rewrite(""), "");
    assert_eq!(rewrite("<p>no scripts</p>"), "<p>no scripts</p>");
}

#[test]
fn rewriting_keeps_text_around_and_between_tags() {
    assert_eq!(
        rewrite("a\u{e9}<script data-bundle src='x/y.ts'></script>\nmid\u{1F600}<script  src=\"z.js\"  data-bundle ></script>end"),
        "a\u{e9}<script data-bundle src='/.cook/x/y.ts/bundle.js'></script>\nmid\u{1F600}<script  src=\"/.cook/z.js/bundle.js\"  data-bundle ></script>end"
    );
}

#[test]
fn rewriting_an_empty_src_inserts_the_bundle_path() {
    assert_eq!(
        rewrite("<script src=\"\" data-bundle></script>"),
        "<script src=\"/.cook//bundle.js\" data-bundle></script>"
    );
}

#[test]
fn rewriting_fails_without_touching_the_page() {
    let page = b"<script src=\"a.js\" data-bundle></script><script data-bundle></script>".to_vec();
    let mut data = page.clone();
    assert_eq!(update_src_attributes(&mut data), Err(HtmlError::MissingSource));
    assert_eq!(data, page);
    let mut broken = vec![b'<', 0xff, b'>'];
    assert_eq!(update_src_attributes(&mut broken), Err(HtmlError::NotUtf8));
    assert_eq!(broken, vec![b'<', 0xff, b'>']);
}

#[test]
fn sources_of_bundled_scripts_are_listed_in_order() {
    let page = b"<html><script src=\"file.js\" data-bundle></script><script src=\"file2.js\" data-bundle></script></html>".to_vec();
    assert_eq!(
        get_script_tag_sources(&page),
        Ok(vec!["file.js".to_string(), "file2.js".to_string()])
    );
    let single = b"<html><script src=\"file.js\" data-bundle></script></html>".to_vec();
    assert_eq!(get_script_tag_sources(&single), Ok(vec!["file.js".to_string()]));
}

#[test]
fn scripts_without_data_bundle_are_not_listed() {
    let page = b"<html><script src=\"file.js\"></script></html>".to_vec();
    assert_eq!(get_script_tag_sources(&page), Ok(Vec::new()));
    assert_eq!(get_script_tag_sources(&Vec::new()), Ok(Vec::new()));
}

#[test]
fn bundled_script_without_src_is_an_error() {
    let page = b"<script data-bundle></script>".to_vec();
    assert_eq!(get_script_tag_sources(&page), Err(HtmlError::MissingSource));
    let later = b"<script src='a.js' data-bundle></script><script data-bundle ></script>".to_vec();
    assert_eq!(get_script_tag_sources(&later), Err(HtmlError::MissingSource));
}

#[test]
fn page_that_is_not_utf8_is_an_error() {
    let page = vec![0xc3, 0x28];
    assert_eq!(get_script_tag_sources(&page), Err(HtmlError::NotUtf8));
}

#[test]
fn capture_outcomes_are_told_apart() {
    assert_eq!(source_of_capture(None).unwrap_err(), HtmlError::BadPattern);
    assert_eq!(source_of_capture(Some(None)).unwrap_err(), HtmlError::MissingSource);
    let found = source_of_capture(Some(Some(Found { start: 13, text: "a.js".to_string() }))).unwrap();
    assert_eq!(found.start, 13);
    assert_eq!(found.text, "a.js");
}

#[test]
fn bytes_are_appended() {
    let mut out = vec![1u8, 2];
    append_bytes(&mut out, &[3, 4, 5]);
    assert_eq!(out, vec![1, 2, 3, 4, 5]);
    append_bytes(&mut out, &[]);
    assert_eq!(out, vec![1, 2, 3, 4, 5]);
}
