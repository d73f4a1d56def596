//! Answering a request for a file: 200 with the content, 304 when the
//! client's copy is current, 404 when there is no such file.

use vstd::prelude::*;
use vstd::std_specs::iter::IteratorSpec;
use crate::asset::{file_value, text_of, FileView, GetFromVite, ViteFile};
use crate::cache::{cache_control, resolve, CacheStrategy, Mode};
use crate::table::AssetTable;
use crate::text::slice_text;

verus! {

/// What is sent back for one request.
#[derive(Debug)]
pub struct Response {
    /// The HTTP status code.
    pub status: u16,
    /// The body; empty unless the status is 200.
    pub body: Vec<u8>,
    /// The `Content-Type` header.
    pub content_type: Option<String>,
    /// The `Content-Length` header.
    pub content_length: Option<u64>,
    /// The `Last-Modified` header.
    pub last_modified: Option<String>,
    /// The `ETag` header.
    pub etag: Option<String>,
    /// The `Cache-Control` header.
    pub cache_control: Option<String>,
}

/// The mathematical value of a `Response`.
pub struct ResponseView {
    pub status: int,
    pub body: Seq<u8>,
    pub content_type: Option<Seq<char>>,
    pub content_length: Option<nat>,
    pub last_modified: Option<Seq<char>>,
    pub etag: Option<Seq<char>>,
    pub cache_control: Option<Seq<char>>,
}

impl View for Response {
    type V = ResponseView;

    open spec fn view(&self) -> ResponseView {
        ResponseView {
            status: self.status as int,
            body: self.body@,
            content_type: text_of(self.content_type),
            content_length: match self.content_length {
                Some(n) => Some(n as nat),
                None => None,
            },
            last_modified: text_of(self.last_modified),
            etag: text_of(self.etag),
            cache_control: text_of(self.cache_control),
        }
    }
}

/// Whether `c` ends the path part of a request target.
pub open spec fn ends_path(c: char) -> bool {
    c == '?' || c == '#'
}

/// The first position at or after `from` that holds `?` or `#`, or the
/// length of `target` if there is none.
pub open spec fn path_end(target: Seq<char>, from: int) -> int
    decreases target.len() - from,
{
    if from < 0 || from >= target.len() || ends_path(target[from]) {
        from
    } else {
        path_end(target, from + 1)
    }
}

/// The first position in `from..end` that does not hold `/`, or `end`.
pub open spec fn path_start(target: Seq<char>, from: int, end: int) -> int
    decreases end - from,
{
    if from < 0 || from >= end || target[from] != '/' {
        from
    } else {
        path_start(target, from + 1, end)
    }
}

/// The key served for an empty path.
pub open spec fn index_key() -> Seq<char> {
    seq!['i', 'n', 'd', 'e', 'x', '.', 'h', 't', 'm', 'l']
}

/// The table key of a request target: the target without its query and
/// fragment and without leading slashes; the index page if nothing is left.
pub open spec fn request_key(target: Seq<char>) -> Seq<char> {
    let end = path_end(target, 0);
    let start = path_start(target, 0, end);
    if start >= end {
        index_key()
    } else {
        target.subrange(start, end)
    }
}

/// Whether a key is a request path in its canonical form: it is its own
/// request key.
pub open spec fn is_canonical(key: Seq<char>) -> bool {
    request_key(key) == key
}

/// A key is canonical exactly if it is not empty, does not start with `/`
/// and holds neither `?` nor `#`.
pub proof fn canonical_keys(key: Seq<char>)
    ensures
        is_canonical(key) <==> key.len() > 0 && key[0] != '/' && forall|i: int|
            0 <= i < key.len() ==> !ends_path(#[trigger] key[i]),
{
    path_end_is_first(key, 0);
    let end = path_end(key, 0);
    path_start_is_first(key, 0, end);
    let start = path_start(key, 0, end);
    if key.len() > 0 && key[0] != '/' && forall|i: int|
        0 <= i < key.len() ==> !ends_path(#[trigger] key[i]) {
        assert(end == key.len());
        assert(start == 0);
        assert(key.subrange(0, key.len() as int) =~= key);
    }
    if is_canonical(key) {
        if start >= end {
            assert(key == index_key());
            assert(key[0] == 'i');
            assert(!ends_path(key[0]));
            assert(false);
        }
        assert(key.subrange(start, end).len() == end - start);
        assert(start == 0 && end == key.len());
    }
}

/// No position from `from` up to the end of the path holds `?` or `#`,
/// and the end of the path does, unless it is the end of the target.
pub proof fn path_end_is_first(target: Seq<char>, from: int)
    requires
        0 <= from <= target.len(),
    ensures
        from <= path_end(target, from) <= target.len(),
        forall|i: int| from <= i < path_end(target, from) ==> !ends_path(#[trigger] target[i]),
        path_end(target, from) < target.len() ==> ends_path(target[path_end(target, from)]),
    decreases target.len() - from,
{
    if from < target.len() && !ends_path(target[from]) {
        path_end_is_first(target, from + 1);
    }
}

/// Every position from `from` up to the start of the key holds `/`, and
/// the start of the key does not, unless it is the end of the path.
pub proof fn path_start_is_first(target: Seq<char>, from: int, end: int)
    requires
        0 <= from <= end <= target.len(),
    ensures
        from <= path_start(target, from, end) <= end,
        forall|i: int| from <= i < path_start(target, from, end) ==> #[trigger] target[i] == '/',
        path_start(target, from, end) < end ==> target[path_start(target, from, end)] != '/',
    decreases end - from,
{
    if from < end && target[from] == '/' {
        path_start_is_first(target, from + 1, end);
    }
}

/// The key of every request target is canonical.
pub proof fn request_key_is_canonical(target: Seq<char>)
    ensures
        is_canonical(request_key(target)),
{
    let key = request_key(target);
    path_end_is_first(target, 0);
    let end = path_end(target, 0);
    path_start_is_first(target, 0, end);
    let start = path_start(target, 0, end);
    canonical_keys(key);
    if start < end {
        assert(key[0] == target[start]);
        assert forall|i: int| 0 <= i < key.len() implies !ends_path(#[trigger] key[i]) by {
            assert(key[i] == target[start + i]);
        }
    }
}

/// The entity tag of a content hash: weak in development, strong in
/// production.
pub open spec fn quoted_hash(mode: Mode, hash: Seq<char>) -> Seq<char> {
    match mode {
        Mode::Development => seq!['W', '/', '"'] + hash + seq!['"'],
        Mode::Production => seq!['"'] + hash + seq!['"'],
    }
}

/// The entity tag of a file, where it has a content hash.
pub open spec fn entity_tag(mode: Mode, file: FileView) -> Option<Seq<char>> {
    match file.content_hash {
        Some(hash) => Some(quoted_hash(mode, hash)),
        None => None,
    }
}

/// The answer to a request for a file that does not exist.
pub open spec fn not_found() -> ResponseView {
    ResponseView {
        status: 404,
        body: Seq::empty(),
        content_type: None,
        content_length: None,
        last_modified: None,
        etag: None,
        cache_control: None,
    }
}

/// The answer to a conditional request whose entity tag is current.
pub open spec fn not_modified(tag: Seq<char>, strategy: CacheStrategy) -> ResponseView {
    ResponseView {
        status: 304,
        body: Seq::empty(),
        content_type: None,
        content_length: None,
        last_modified: None,
        etag: Some(tag),
        cache_control: Some(cache_control(strategy)),
    }
}

/// The answer that carries the file.
pub open spec fn found(file: FileView, mode: Mode, strategy: CacheStrategy) -> ResponseView {
    ResponseView {
        status: 200,
        body: file.bytes,
        content_type: Some(file.content_type),
        content_length: Some(file.bytes.len()),
        last_modified: file.last_modified,
        etag: entity_tag(mode, file),
        cache_control: Some(cache_control(strategy)),
    }
}

/// The answer to a request, given what the lookup of its key produced and
/// the `If-None-Match` header it carried.
pub open spec fn response_for(
    lookup: Option<FileView>,
    mode: Mode,
    strategy: CacheStrategy,
    if_none_match: Option<Seq<char>>,
) -> ResponseView {
    match lookup {
        None => not_found(),
        Some(file) => match entity_tag(mode, file) {
            Some(tag) => if if_none_match == Some(tag) {
                not_modified(tag, strategy)
            } else {
                found(file, mode, strategy)
            },
            None => found(file, mode, strategy),
        },
    }
}

/// What a table holds under the key of a request target.
pub open spec fn table_lookup(table: Map<Seq<char>, FileView>, target: Seq<char>) -> Option<
    FileView,
> {
    if table.dom().contains(request_key(target)) {
        Some(table[request_key(target)])
    } else {
        None
    }
}

/// The table key of a request target.
pub fn normalize_path(target: &str) -> (key: String)
    ensures
        key@ == request_key(target@),
{
    let n = target.unicode_len();
    let mut chars = target.chars();
    let mut i: usize = 0;
    let mut start: usize = 0;
    let mut leading = true;
    loop
        invariant_except_break
            i <= n,
            n == target@.len(),
            start <= i,
            chars.remaining() == target@.subrange(i as int, n as int),
            path_end(target@, 0) == path_end(target@, i as int),
            leading ==> start == i,
            path_start(target@, 0, path_end(target@, 0)) == if leading {
                path_start(target@, i as int, path_end(target@, 0))
            } else {
                start as int
            },
            !leading ==> start < path_end(target@, 0),
        ensures
            i <= n,
            n == target@.len(),
            i == path_end(target@, 0),
            start <= i,
            path_start(target@, 0, i as int) == if leading {
                i as int
            } else {
                start as int
            },
            !leading ==> start < i,
        decreases n - i,
    {
        let ghost before = chars;
        match chars.next() {
            None => {
                assert(i == n);
                break ;
            },
            Some(c) => {
                assert(c == target@[i as int]);
                assert(chars.remaining() == target@.subrange(i as int + 1, n as int));
                if c == '?' || c == '#' {
                    break ;
                }
                proof {
                    path_end_is_first(target@, i as int + 1);
                }
                if leading {
                    if c == '/' {
                        start = i + 1;
                    } else {
                        leading = false;
                        start = i;
                    }
                }
                i += 1;
            },
        }
    }
    if leading {
        proof {
            reveal_strlit("index.html");
            assert("index.html"@ =~= index_key());
        }
        "index.html".to_owned()
    } else {
        target.substring_char(start, i).to_owned()
    }
}

/// The entity tag of a content hash.
pub fn make_etag(mode: Mode, hash: &String) -> (tag: String)
    ensures
        tag@ == quoted_hash(mode, hash@),
{
    proof {
        reveal_strlit("W/\"");
        reveal_strlit("\"");
    }
    let mut tag = match mode {
        Mode::Development => "W/\"".to_owned(),
        Mode::Production => "\"".to_owned(),
    };
    tag.append(hash.as_str());
    tag.append("\"");
    assert(tag@ =~= quoted_hash(mode, hash@));
    tag
}

/// The answer to a request, given what the lookup of its key produced.
///
/// The entity tag is compared before the content is touched: a request
/// whose `If-None-Match` equals the tag exactly gets 304 with no body.
pub fn respond_to(
    lookup: Option<ViteFile>,
    mode: Mode,
    strategy: &CacheStrategy,
    if_none_match: Option<&str>,
) -> (response: Response)
    ensures
        response@ == response_for(file_value(lookup), mode, *strategy, slice_text(if_none_match)),
{
    match lookup {
        None => Response {
            status: 404,
            body: Vec::new(),
            content_type: None,
            content_length: None,
            last_modified: None,
            etag: None,
            cache_control: None,
        },
        Some(file) => {
            let etag = match &file.content_hash {
                Some(hash) => Some(make_etag(mode, hash)),
                None => None,
            };
            let current = match (&etag, if_none_match) {
                (Some(tag), Some(given)) => given.to_owned() == *tag,
                _ => false,
            };
            let cache_control = resolve(strategy, &file);
            if current {
                Response {
                    status: 304,
                    body: Vec::new(),
                    content_type: None,
                    content_length: None,
                    last_modified: None,
                    etag,
                    cache_control: Some(cache_control),
                }
            } else {
                let content_length = file.bytes.len() as u64;
                Response {
                    status: 200,
                    body: file.bytes,
                    content_type: Some(file.content_type),
                    content_length: Some(content_length),
                    last_modified: file.last_modified,
                    etag,
                    cache_control: Some(cache_control),
                }
            }
        },
    }
}

/// Answers a request against any source of files: the key of `path` is
/// looked up, and the answer is the one that `response_for` gives for
/// what the source yields.
pub fn respond<T: GetFromVite>(
    assets: &T,
    path: &str,
    if_none_match: Option<&str>,
    mode: Mode,
    strategy: &CacheStrategy,
) -> (response: Response)
    ensures
        exists|lookup: Option<FileView>|
            #![trigger assets.may_yield(request_key(path@), lookup)]
            assets.may_yield(request_key(path@), lookup) && response@ == response_for(
                lookup,
                mode,
                *strategy,
                slice_text(if_none_match),
            ),
{
    let key = normalize_path(path);
    let lookup = assets.get(key.as_str());
    let ghost value = file_value(lookup);
    let response = respond_to(lookup, mode, strategy, if_none_match);
    assert(assets.may_yield(request_key(path@), value));
    response
}

impl AssetTable {
    /// Answers a request against this table. Every key of the table,
    /// requested as it stands, finds its own file.
    pub fn respond(
        &self,
        path: &str,
        if_none_match: Option<&str>,
        mode: Mode,
        strategy: &CacheStrategy,
    ) -> (response: Response)
        ensures
            response@ == response_for(
                table_lookup(self@, path@),
                mode,
                *strategy,
                slice_text(if_none_match),
            ),
            self@.dom().contains(path@) ==> table_lookup(self@, path@) == Some(self@[path@]),
            self@.dom().contains(path@) && if_none_match is None ==> response@.status == 200
                && response@.body == self@[path@].bytes && response@.content_length == Some(
                response@.body.len(),
            ),
            !self@.dom().contains(request_key(path@)) ==> response@ == not_found(),
    {
        let key = normalize_path(path);
        let lookup = self.lookup(key.as_str());
        proof {
            use_type_invariant(self);
            if self@.dom().contains(path@) {
                self.keys_are_canonical(path@);
            }
        }
        respond_to(lookup, mode, strategy, if_none_match)
    }
}

/// A request whose key the table holds, sent without `If-None-Match`, is
/// answered with 200, the file's content, and a `Content-Length` equal to
/// the length of the body.
pub proof fn known_key_is_served(
    table: Map<Seq<char>, FileView>,
    target: Seq<char>,
    mode: Mode,
    strategy: CacheStrategy,
)
    requires
        table.dom().contains(request_key(target)),
    ensures
        ({
            let response = response_for(table_lookup(table, target), mode, strategy, None);
            &&& response.status == 200
            &&& response.body == table[request_key(target)].bytes
            &&& response.content_length == Some(response.body.len())
        }),
{
}

/// A canonical key that the table holds is served when it is requested as
/// it stands, and with any number of slashes before it.
pub proof fn canonical_key_is_served_as_itself(
    table: Map<Seq<char>, FileView>,
    key: Seq<char>,
    slashes: nat,
)
    requires
        is_canonical(key),
        table.dom().contains(key),
    ensures
        table_lookup(table, key) == Some(table[key]),
        table_lookup(table, Seq::new(slashes, |i: int| '/') + key) == Some(table[key]),
{
    let lead = Seq::new(slashes, |i: int| '/');
    let target = lead + key;
    canonical_keys(key);
    path_end_is_first(key, 0);
    path_end_is_first(target, 0);
    let end = path_end(target, 0);
    assert(end == target.len()) by {
        if end < target.len() {
            if end < slashes {
                assert(target[end] == '/');
            } else {
                assert(target[end] == key[end - slashes]);
            }
        }
    }
    path_start_is_first(target, 0, end);
    let start = path_start(target, 0, end);
    assert(start == slashes) by {
        if start < slashes {
            assert(target[start] == '/');
        }
        if start > slashes {
            assert(target[slashes as int] == key[0]);
        }
    }
    assert(target.subrange(start, end) =~= key);
}

/// A request for a key that the table does not hold is answered with 404
/// and an empty body, whatever `If-None-Match` it carries.
pub proof fn unknown_key_is_not_found(
    table: Map<Seq<char>, FileView>,
    target: Seq<char>,
    mode: Mode,
    strategy: CacheStrategy,
    if_none_match: Option<Seq<char>>,
)
    requires
        !table.dom().contains(request_key(target)),
    ensures
        ({
            let response = response_for(table_lookup(table, target), mode, strategy, if_none_match);
            &&& response.status == 404
            &&& response.body.len() == 0
        }),
{
}

/// A request for a known key that carries the file's own entity tag is
/// answered with 304, an empty body, that tag, the policy's cache header,
/// and no `Content-Length`.
pub proof fn current_tag_is_not_modified(
    table: Map<Seq<char>, FileView>,
    target: Seq<char>,
    mode: Mode,
    strategy: CacheStrategy,
)
    requires
        table.dom().contains(request_key(target)),
        entity_tag(mode, table[request_key(target)]) is Some,
    ensures
        ({
            let tag = entity_tag(mode, table[request_key(target)]);
            let response = response_for(table_lookup(table, target), mode, strategy, tag);
            &&& response.status == 304
            &&& response.body.len() == 0
            &&& response.content_length is None
            &&& response.etag == tag
            &&& response.cache_control == Some(cache_control(strategy))
        }),
{
}

/// The tag that a 200 answer carries, sent back as `If-None-Match` with
/// the same request, gives 304.
pub proof fn revalidation_succeeds(
    lookup: Option<FileView>,
    mode: Mode,
    strategy: CacheStrategy,
    if_none_match: Option<Seq<char>>,
)
    requires
        response_for(lookup, mode, strategy, if_none_match).status == 200,
        response_for(lookup, mode, strategy, if_none_match).etag is Some,
    ensures
        response_for(
            lookup,
            mode,
            strategy,
            response_for(lookup, mode, strategy, if_none_match).etag,
        ).status == 304,
{
}

/// In every answer a `Content-Length` that is present equals the length of
/// the body, the body is empty unless the status is 200, and the status is
/// one of 200, 304 and 404.
pub proof fn answers_are_consistent(
    lookup: Option<FileView>,
    mode: Mode,
    strategy: CacheStrategy,
    if_none_match: Option<Seq<char>>,
)
    ensures
        ({
            let response = response_for(lookup, mode, strategy, if_none_match);
            &&& response.status == 200 || response.status == 304 || response.status == 404
            &&& response.content_length is Some ==> response.content_length == Some(
                response.body.len(),
            )
            &&& response.status != 200 ==> response.body.len() == 0
            &&& (response.status == 404 <==> lookup is None)
        }),
{
}

} // verus!
