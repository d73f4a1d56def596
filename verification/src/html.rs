//! The scripts of a page that are to be bundled: every `<script>` tag that
//! carries `data-bundle`. Their `src` attributes are listed, or rewritten
//! to where the bundles are served from.

use vstd::prelude::*;
use vstd::string::StringSliceAdditionalSpecFns;
use vstd::utf8::{decode_utf8, encode_utf8, valid_utf8};
use crate::text::texts;

verus! {

/// One match of a pattern: where it starts in the haystack, in bytes, and
/// the text that matched.
#[derive(Debug)]
pub struct Found {
    pub start: usize,
    pub text: String,
}

/// The mathematical value of a `Found`.
pub struct FoundView {
    pub start: nat,
    pub text: Seq<char>,
}

impl View for Found {
    type V = FoundView;

    open spec fn view(&self) -> FoundView {
        FoundView { start: self.start as nat, text: self.text@ }
    }
}

/// All successive non-overlapping matches of a regular expression in a
/// haystack, leftmost first; `None` where the pattern does not compile.
pub uninterp spec fn regex_matches(pattern: Seq<char>, haystack: Seq<char>) -> Option<
    Seq<FoundView>,
>;

/// One capture group in the first match of a regular expression in a
/// haystack: `None` where the pattern does not compile, `Some(None)` where
/// nothing matches or the group took no part in the match.
pub uninterp spec fn regex_capture(pattern: Seq<char>, haystack: Seq<char>, group: int) -> Option<
    Option<FoundView>,
>;

/// The values of a list of matches.
pub open spec fn found_list(list: Seq<Found>) -> Seq<FoundView> {
    Seq::new(list.len(), |i: int| list[i]@)
}

/// The values of an optional list of matches.
pub open spec fn found_all(list: Option<Vec<Found>>) -> Option<Seq<FoundView>> {
    match list {
        Some(list) => Some(found_list(list@)),
        None => None,
    }
}

/// The value of what a search for a capture group produced.
pub open spec fn found_group(captured: Option<Option<Found>>) -> Option<Option<FoundView>> {
    match captured {
        Some(Some(found)) => Some(Some(found@)),
        Some(None) => Some(None),
        None => None,
    }
}

/// Calls `std::str::from_utf8`, which checks that the bytes are valid
/// UTF-8 and, if they are, hands the same bytes back as a string slice.
#[verifier::external_body]
fn utf8_text(bytes: &[u8]) -> (text: Option<&str>)
    ensures
        match text {
            Some(text) => valid_utf8(bytes@) && text.spec_bytes() == bytes@,
            None => !valid_utf8(bytes@),
        },
{
    std::str::from_utf8(bytes).ok()
}

/// Compiles `pattern` with `regex::Regex::new` and collects, for every
/// match that `Regex::find_iter` yields for `haystack`, its start and its
/// text. A pattern that does not compile gives `None`. The contract names
/// the list.
#[verifier::external_body]
fn find_matches(pattern: &str, haystack: &str) -> (found: Option<Vec<Found>>)
    ensures
        found_all(found) == regex_matches(pattern@, haystack@),
{
    match regex::Regex::new(pattern) {
        Ok(regex) => Some(
            regex.find_iter(haystack).map(
                |m| Found { start: m.start(), text: m.as_str().to_owned() },
            ).collect(),
        ),
        Err(_) => None,
    }
}

/// Compiles `pattern` with `regex::Regex::new`, searches `haystack` with
/// `Regex::captures` and takes capture group `group` with `Captures::get`:
/// its start and its text. A pattern that does not compile gives `None`;
/// no match, or a group that took no part in it, gives `Some(None)`. The
/// contract names the outcome.
#[verifier::external_body]
fn first_capture(pattern: &str, haystack: &str, group: usize) -> (captured: Option<Option<Found>>)
    ensures
        found_group(captured) == regex_capture(pattern@, haystack@, group as int),
{
    match regex::Regex::new(pattern) {
        Ok(regex) => Some(
            regex.captures(haystack).and_then(|c| c.get(group)).map(
                |m| Found { start: m.start(), text: m.as_str().to_owned() },
            ),
        ),
        Err(_) => None,
    }
}

/// Why the scripts of a page could not be listed or rewritten.
#[derive(Clone, Copy, Debug, PartialEq, Eq, Structural)]
pub enum HtmlError {
    /// The page is not valid UTF-8.
    NotUtf8,
    /// A pattern was refused by the regular-expression engine.
    BadPattern,
    /// A script tag that is to be bundled has no `src` attribute.
    MissingSource,
    /// A reported match does not lie in the page behind the one before it.
    Misplaced,
}

/// The pattern of a `<script>` tag that carries `data-bundle`.
pub open spec fn script_tag_pattern() -> Seq<char> {
    r#"<\s*script\s+.*?data-bundle.*?\s*>"#@
}

/// The pattern of a `<script>` tag with a `src` attribute; its first group
/// is the attribute's value.
pub open spec fn src_attribute_pattern() -> Seq<char> {
    r#"<\s*script\s+.*?src=['"](.*?)['"].*?\s*>"#@
}

/// The `src` attribute of one script tag, given what the search for it
/// produced: where it starts within the tag, and its value.
pub open spec fn source_of(captured: Option<Option<FoundView>>) -> Result<FoundView, HtmlError> {
    match captured {
        Some(Some(source)) => Ok(source),
        Some(None) => Err(HtmlError::MissingSource),
        None => Err(HtmlError::BadPattern),
    }
}

/// The `src` attribute of a script tag.
pub open spec fn source_in(tag: FoundView) -> Result<FoundView, HtmlError> {
    source_of(regex_capture(src_attribute_pattern(), tag.text, 1))
}

/// The script tags of a page that are to be bundled.
pub open spec fn script_tags(html: Seq<u8>) -> Result<Seq<FoundView>, HtmlError> {
    if !valid_utf8(html) {
        Err(HtmlError::NotUtf8)
    } else {
        match regex_matches(script_tag_pattern(), decode_utf8(html)) {
            None => Err(HtmlError::BadPattern),
            Some(tags) => Ok(tags),
        }
    }
}

/// The `src` values of the tags from position `from` on, in order; the
/// error of the first tag that has none.
pub open spec fn sources_from(tags: Seq<FoundView>, from: int) -> Result<Seq<Seq<char>>, HtmlError>
    decreases tags.len() - from,
{
    if from < 0 || from >= tags.len() {
        Ok(Seq::empty())
    } else {
        match source_in(tags[from]) {
            Err(error) => Err(error),
            Ok(source) => match sources_from(tags, from + 1) {
                Ok(rest) => Ok(seq![source.text] + rest),
                Err(error) => Err(error),
            },
        }
    }
}

/// The sources of the scripts of a page that are to be bundled.
pub open spec fn script_tag_sources(html: Seq<u8>) -> Result<Seq<Seq<char>>, HtmlError> {
    match script_tags(html) {
        Err(error) => Err(error),
        Ok(tags) => sources_from(tags, 0),
    }
}

/// The `src` value under which the bundle of a script is served.
pub open spec fn bundle_source(source: Seq<char>) -> Seq<u8> {
    encode_utf8("/.cook/"@) + encode_utf8(source) + encode_utf8("/bundle.js"@)
}

/// The page from byte `cursor` on, with the `src` value of every tag from
/// position `from` on replaced by the source of its bundle. A `src` value
/// that does not lie in the page, at or behind `cursor`, is an error.
pub open spec fn rewritten_from(html: Seq<u8>, tags: Seq<FoundView>, from: int, cursor: int) -> Result<
    Seq<u8>,
    HtmlError,
>
    decreases tags.len() - from,
{
    if from < 0 || from >= tags.len() {
        Ok(html.subrange(cursor, html.len() as int))
    } else {
        match source_in(tags[from]) {
            Err(error) => Err(error),
            Ok(source) => {
                let start = tags[from].start as int + source.start as int;
                let end = start + encode_utf8(source.text).len() as int;
                if cursor <= start && end <= html.len() {
                    match rewritten_from(html, tags, from + 1, end) {
                        Ok(rest) => Ok(
                            html.subrange(cursor, start) + bundle_source(source.text) + rest,
                        ),
                        Err(error) => Err(error),
                    }
                } else {
                    Err(HtmlError::Misplaced)
                }
            },
        }
    }
}

/// The page with the `src` value of every script that is to be bundled
/// replaced by the source of its bundle.
pub open spec fn rewritten(html: Seq<u8>) -> Result<Seq<u8>, HtmlError> {
    match script_tags(html) {
        Err(error) => Err(error),
        Ok(tags) => rewritten_from(html, tags, 0, 0),
    }
}

/// The characters of a list of strings, or the error.
pub open spec fn listed(sources: Result<Vec<String>, HtmlError>) -> Result<
    Seq<Seq<char>>,
    HtmlError,
> {
    match sources {
        Ok(sources) => Ok(texts(sources@)),
        Err(error) => Err(error),
    }
}

/// The value of a match, or the error.
pub open spec fn found_or(source: Result<Found, HtmlError>) -> Result<FoundView, HtmlError> {
    match source {
        Ok(found) => Ok(found@),
        Err(error) => Err(error),
    }
}

/// The `src` attribute of one script tag, given what the search for it
/// produced.
pub fn source_of_capture(captured: Option<Option<Found>>) -> (source: Result<Found, HtmlError>)
    ensures
        found_or(source) == source_of(found_group(captured)),
{
    match captured {
        Some(Some(source)) => Ok(source),
        Some(None) => Err(HtmlError::MissingSource),
        None => Err(HtmlError::BadPattern),
    }
}

fn find_script_tags(html: &Vec<u8>) -> (tags: Result<Vec<Found>, HtmlError>)
    ensures
        match tags {
            Ok(tags) => script_tags(html@) == Ok::<Seq<FoundView>, HtmlError>(found_list(tags@)),
            Err(error) => script_tags(html@) == Err::<Seq<FoundView>, HtmlError>(error),
        },
{
    match utf8_text(html.as_slice()) {
        None => Err(HtmlError::NotUtf8),
        Some(text) => {
            proof {
                vstd::utf8::encode_utf8_decode_utf8(text@);
            }
            match find_matches(r#"<\s*script\s+.*?data-bundle.*?\s*>"#, text) {
                Some(tags) => Ok(tags),
                None => Err(HtmlError::BadPattern),
            }
        },
    }
}

fn find_source(tag: &Found) -> (source: Result<Found, HtmlError>)
    ensures
        found_or(source) == source_in(tag@),
{
    source_of_capture(
        first_capture(r#"<\s*script\s+.*?src=['"](.*?)['"].*?\s*>"#, tag.text.as_str(), 1),
    )
}

/// Lists the `src` attribute of every `<script>` tag of the page that
/// carries `data-bundle`, in the order of the tags. The values are handed
/// back as they stand in the page; nothing checks that such files exist.
pub fn get_script_tag_sources(html_file_contents: &Vec<u8>) -> (sources: Result<
    Vec<String>,
    HtmlError,
>)
    ensures
        listed(sources) == script_tag_sources(html_file_contents@),
{
    let tags = match find_script_tags(html_file_contents) {
        Ok(tags) => tags,
        Err(error) => {
            return Err(error);
        },
    };
    let ghost all = found_list(tags@);
    let mut sources: Vec<String> = Vec::new();
    proof {
        let listed_so_far = texts(sources@);
        assert(listed_so_far =~= Seq::<Seq<char>>::empty());
        if let Ok(rest) = sources_from(all, 0) {
            assert(listed_so_far + rest =~= rest);
        }
    }
    let mut i: usize = 0;
    while i < tags.len()
        invariant
            i <= tags@.len(),
            all == found_list(tags@),
            script_tags(html_file_contents@) == Ok::<Seq<FoundView>, HtmlError>(all),
            sources_from(all, 0) == match sources_from(all, i as int) {
                Ok(rest) => Ok::<Seq<Seq<char>>, HtmlError>(texts(sources@) + rest),
                Err(error) => Err::<Seq<Seq<char>>, HtmlError>(error),
            },
        decreases tags@.len() - i,
    {
        assert(all[i as int] == tags@[i as int]@);
        match find_source(&tags[i]) {
            Ok(source) => {
                let ghost before = texts(sources@);
                sources.push(source.text);
                proof {
                    assert(texts(sources@) =~= before.push(source.text@));
                    match sources_from(all, i as int + 1) {
                        Ok(rest) => {
                            assert(before + (seq![source.text@] + rest) =~= before.push(
                                source.text@,
                            ) + rest);
                        },
                        Err(_) => {},
                    }
                }
            },
            Err(error) => {
                return Err(error);
            },
        }
        i += 1;
    }
    proof {
        assert(texts(sources@) + Seq::<Seq<char>>::empty() =~= texts(
            sources@,
        ));
    }
    Ok(sources)
}

/// Appends `bytes` to `out`.
pub fn append_bytes(out: &mut Vec<u8>, bytes: &[u8])
    ensures
        final(out)@ == old(out)@ + bytes@,
{
    let mut i: usize = 0;
    while i < bytes.len()
        invariant
            i <= bytes@.len(),
            out@ == old(out)@ + bytes@.subrange(0, i as int),
        decreases bytes@.len() - i,
    {
        out.push(bytes[i]);
        assert(out@ =~= old(out)@ + bytes@.subrange(0, i as int + 1));
        i += 1;
    }
    assert(bytes@.subrange(0, i as int) =~= bytes@);
}

/// Appends the bytes of `html` from `from` up to `to`.
fn append_range(out: &mut Vec<u8>, html: &Vec<u8>, from: usize, to: usize)
    requires
        from <= to <= html@.len(),
    ensures
        final(out)@ == old(out)@ + html@.subrange(from as int, to as int),
{
    let mut i: usize = from;
    while i < to
        invariant
            from <= i <= to <= html@.len(),
            out@ == old(out)@ + html@.subrange(from as int, i as int),
        decreases to - i,
    {
        out.push(html[i]);
        assert(out@ =~= old(out)@ + html@.subrange(from as int, i as int + 1));
        i += 1;
    }
}

proof fn pieces_join(before: Seq<u8>, a: Seq<u8>, b: Seq<u8>, c: Seq<u8>, d: Seq<u8>)
    ensures
        before + a + b + c + d == before + (a + (b + c + d)),
{
    assert(before + a + b + c + d =~= before + (a + (b + c + d)));
}

proof fn step_holds(
    total: Result<Seq<u8>, HtmlError>,
    now: Result<Seq<u8>, HtmlError>,
    next: Result<Seq<u8>, HtmlError>,
    before: Seq<u8>,
    piece: Seq<u8>,
    out: Seq<u8>,
)
    requires
        total == match now {
            Ok(rest) => Ok::<Seq<u8>, HtmlError>(before + rest),
            Err(error) => Err::<Seq<u8>, HtmlError>(error),
        },
        now == match next {
            Ok(rest) => Ok::<Seq<u8>, HtmlError>(piece + rest),
            Err(error) => Err::<Seq<u8>, HtmlError>(error),
        },
        out == before + piece,
    ensures
        total == match next {
            Ok(rest) => Ok::<Seq<u8>, HtmlError>(out + rest),
            Err(error) => Err::<Seq<u8>, HtmlError>(error),
        },
{
    match next {
        Ok(rest) => {
            assert(before + (piece + rest) =~= (before + piece) + rest);
        },
        Err(_) => {},
    }
}

/// Rewrites, in place, the `src` attribute of every `<script>` tag of the
/// page that carries `data-bundle`: the value `s` becomes
/// `/.cook/s/bundle.js`. Everything else stays as it is. On an error the
/// page is left untouched.
pub fn update_src_attributes(html_data: &mut Vec<u8>) -> (done: Result<(), HtmlError>)
    ensures
        match rewritten(old(html_data)@) {
            Ok(page) => done is Ok && final(html_data)@ == page,
            Err(error) => done == Err::<(), HtmlError>(error) && final(html_data)@ == old(
                html_data,
            )@,
        },
{
    let tags = match find_script_tags(html_data) {
        Ok(tags) => tags,
        Err(error) => {
            return Err(error);
        },
    };
    let ghost all = found_list(tags@);
    let ghost html = html_data@;
    let mut out: Vec<u8> = Vec::new();
    let mut cursor: usize = 0;
    let mut i: usize = 0;
    assert(html.subrange(0, html.len() as int) =~= html);
    while i < tags.len()
        invariant
            i <= tags@.len(),
            all == found_list(tags@),
            html == html_data@,
            html == old(html_data)@,
            script_tags(html) == Ok::<Seq<FoundView>, HtmlError>(all),
            cursor <= html.len(),
            rewritten_from(html, all, 0, 0) == match rewritten_from(
                html,
                all,
                i as int,
                cursor as int,
            ) {
                Ok(rest) => Ok::<Seq<u8>, HtmlError>(out@ + rest),
                Err(error) => Err::<Seq<u8>, HtmlError>(error),
            },
        decreases tags@.len() - i,
    {
        assert(all[i as int] == tags@[i as int]@);
        let source = match find_source(&tags[i]) {
            Ok(source) => source,
            Err(error) => {
                return Err(error);
            },
        };
        let length = source.text.as_str().as_bytes().len();
        let total = html_data.len();
        let tag_start = tags[i].start;
        if tag_start > total || source.start > total - tag_start {
            return Err(HtmlError::Misplaced);
        }
        let start = tag_start + source.start;
        if length > total - start || cursor > start {
            return Err(HtmlError::Misplaced);
        }
        let end = start + length;
        let ghost before = out@;
        let ghost now = rewritten_from(html, all, i as int, cursor as int);
        let ghost next = rewritten_from(html, all, i as int + 1, end as int);
        let ghost piece = html.subrange(cursor as int, start as int) + bundle_source(source.text@);
        proof {
            assert(source_in(all[i as int]) == Ok::<FoundView, HtmlError>(source@));
            assert(end == all[i as int].start + source@.start + encode_utf8(source@.text).len());
            assert(now == match next {
                Ok(rest) => Ok::<Seq<u8>, HtmlError>(piece + rest),
                Err(error) => Err::<Seq<u8>, HtmlError>(error),
            });
        }
        append_range(&mut out, html_data, cursor, start);
        let ghost first = out@;
        append_bytes(&mut out, "/.cook/".as_bytes());
        let ghost second = out@;
        append_bytes(&mut out, source.text.as_str().as_bytes());
        let ghost third = out@;
        append_bytes(&mut out, "/bundle.js".as_bytes());
        proof {
            assert(out@ == before + piece) by {
                assert(first == before + html.subrange(cursor as int, start as int));
                assert(second == first + encode_utf8("/.cook/"@));
                assert(third == second + encode_utf8(source.text@));
                assert(out@ == third + encode_utf8("/bundle.js"@));
                pieces_join(
                    before,
                    html.subrange(cursor as int, start as int),
                    encode_utf8("/.cook/"@),
                    encode_utf8(source.text@),
                    encode_utf8("/bundle.js"@),
                );
            }
            step_holds(rewritten_from(html, all, 0, 0), now, next, before, piece, out@);
        }
        cursor = end;
        i += 1;
    }
    let total = html_data.len();
    let ghost before = out@;
    append_range(&mut out, html_data, cursor, total);
    *html_data = out;
    Ok(())
}

} // verus!
