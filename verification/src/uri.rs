//! Encoding of filesystem paths as `file://localhost/...` URIs.

use vstd::prelude::*;

verus! {

/// What `http`'s URI builder makes of a scheme, an authority and a path-and-query:
/// the text of the finished URI, or the description of the error that refused
/// the parts.
pub uninterp spec fn uri_text(scheme: Seq<char>, authority: Seq<char>, path_and_query: Seq<char>) -> Result<Seq<char>, Seq<char>>;

/// A non-empty word of at most 64 lower-case ASCII letters.
pub open spec fn is_plain_word(s: Seq<char>) -> bool {
    &&& 1 <= s.len() <= 64
    &&& forall|i: int| 0 <= i < s.len() ==> 'a' <= #[trigger] s[i] <= 'z'
}

/// ASCII letters, digits, and `/`, `.`, `-`, `_`, `~`: characters that a URI
/// path holds as they are.
pub open spec fn is_path_safe(c: char) -> bool {
    ||| 'a' <= c <= 'z'
    ||| 'A' <= c <= 'Z'
    ||| '0' <= c <= '9'
    ||| c == '/'
    ||| c == '.'
    ||| c == '-'
    ||| c == '_'
    ||| c == '~'
}

/// An absolute path made of path-safe characters only.
pub open spec fn is_plain_path(path: Seq<char>) -> bool {
    &&& path.len() >= 1
    &&& path[0] == '/'
    &&& forall|i: int| 0 <= i < path.len() ==> is_path_safe(#[trigger] path[i])
}

/// The text `scheme://authority` followed by `path`.
pub open spec fn plain_uri(scheme: Seq<char>, authority: Seq<char>, path: Seq<char>) -> Seq<char> {
    scheme + seq![':', '/', '/'] + authority + path
}

/// Every path of the batch is an absolute path of path-safe characters.
pub open spec fn all_plain(paths: Seq<Seq<char>>) -> bool {
    forall|i: int| 0 <= i < paths.len() ==> is_plain_path(#[trigger] paths[i])
}

/// For each path of the batch, in order, `file`, `:`, two slashes and
/// `localhost`, followed by the path.
pub open spec fn plain_uris(paths: Seq<Seq<char>>) -> Seq<Seq<char>> {
    Seq::new(paths.len(), |i: int| plain_uri("file"@, "localhost"@, paths[i]))
}

/// The views of an encoded path: of its URI, or of the error's description.
pub open spec fn text_result(r: Result<String, String>) -> Result<Seq<char>, Seq<char>> {
    match r {
        Ok(s) => Ok(s@),
        Err(e) => Err(e@),
    }
}

/// The views of a list of encoded paths, in order.
pub open spec fn text_results(v: Seq<Result<String, String>>) -> Seq<Result<Seq<char>, Seq<char>>> {
    Seq::new(v.len(), |i: int| text_result(v[i]))
}

/// The views of an encoded batch.
pub open spec fn texts_result(r: Result<Vec<String>, String>) -> Result<Seq<Seq<char>>, Seq<char>> {
    match r {
        Ok(v) => Ok(texts(v@)),
        Err(e) => Err(e@),
    }
}

/// The views of a list of strings, in order.
pub open spec fn texts(v: Seq<String>) -> Seq<Seq<char>> {
    Seq::new(v.len(), |i: int| v[i]@)
}

/// Trusted: `http::Uri::builder()` with `scheme`, `authority`, `path_and_query`
/// and `build`, and the `Display` text of the URI or of the error.
///
/// The contract claims that the outcome depends on the three texts alone
/// (`uri_text` names it), and that for a scheme and an authority of lower-case
/// letters and an absolute path of path-safe characters the builder accepts
/// the parts and prints them as `scheme://authority/path`, unchanged.
#[verifier::external_body]
fn build_uri(scheme: &str, authority: &str, path_and_query: &str) -> (r: Result<String, String>)
    ensures
        text_result(r) == uri_text(scheme@, authority@, path_and_query@),
        is_plain_word(scheme@) && is_plain_word(authority@) && is_plain_path(path_and_query@)
            ==> r is Ok && r->Ok_0@ == plain_uri(scheme@, authority@, path_and_query@),
{
    let built = http::Uri::builder()
        .scheme(scheme)
        .authority(authority)
        .path_and_query(path_and_query)
        .build();
    match built {
        Ok(uri) => Ok(uri.to_string()),
        Err(e) => Err(e.to_string()),
    }
}

/// The URI of one path: scheme `file`, authority `localhost`, and the path's
/// text as path-and-query; or the description of the encoding error.
pub open spec fn file_uri_text(path: Seq<char>) -> Result<Seq<char>, Seq<char>> {
    uri_text("file"@, "localhost"@, path)
}

/// `i` is the first position in `results` that holds an error.
pub open spec fn is_first_error(results: Seq<Result<Seq<char>, Seq<char>>>, i: int) -> bool {
    &&& 0 <= i < results.len()
    &&& results[i] is Err
    &&& forall|j: int| 0 <= j < i ==> (#[trigger] results[j]) is Ok
}

/// All or nothing: the URIs of a list of encoded paths, each at its path's
/// position; or, where some path was refused, the first error of the list.
pub open spec fn collected(results: Seq<Result<Seq<char>, Seq<char>>>) -> Result<Seq<Seq<char>>, Seq<char>> {
    if exists|i: int| is_first_error(results, i) {
        let i = choose|i: int| is_first_error(results, i);
        Err(results[i]->Err_0)
    } else {
        Ok(Seq::new(results.len(), |i: int| results[i]->Ok_0))
    }
}

/// The URIs of a batch of paths, one for each path and in the same order; or,
/// where some path cannot be encoded, the error of the first such path.
pub open spec fn encode_all(paths: Seq<Seq<char>>) -> Result<Seq<Seq<char>>, Seq<char>> {
    collected(Seq::new(paths.len(), |i: int| file_uri_text(paths[i])))
}

/// Two first errors of one list are the same position.
proof fn first_error_unique(results: Seq<Result<Seq<char>, Seq<char>>>, i: int, j: int)
    requires
        is_first_error(results, i),
        is_first_error(results, j),
    ensures
        i == j,
{
    if i < j {
        assert(results[i] is Ok);
    } else if j < i {
        assert(results[j] is Ok);
    }
}

/// A list that holds an error has a first error.
proof fn first_error_exists(results: Seq<Result<Seq<char>, Seq<char>>>, i: int)
    requires
        0 <= i < results.len(),
        results[i] is Err,
    ensures
        exists|k: int| is_first_error(results, k),
    decreases i,
{
    if forall|j: int| 0 <= j < i ==> (#[trigger] results[j]) is Ok {
        assert(is_first_error(results, i));
    } else {
        let j = choose|j: int| 0 <= j < i && !((#[trigger] results[j]) is Ok);
        first_error_exists(results, j);
    }
}

/// A list is collected into URIs exactly when it holds no error. The result
/// then has the length of the list, and each URI stands at its position.
pub proof fn collected_keeps_length_and_order(results: Seq<Result<Seq<char>, Seq<char>>>)
    ensures
        collected(results) is Ok <==> (forall|i: int| 0 <= i < results.len() ==> (#[trigger] results[i]) is Ok),
        collected(results) is Ok ==> collected(results)->Ok_0.len() == results.len(),
        collected(results) is Ok ==> (forall|i: int| 0 <= i < results.len() ==>
            (#[trigger] results[i])->Ok_0 == collected(results)->Ok_0[i]),
{
    if collected(results) is Ok {
        assert forall|i: int| 0 <= i < results.len() implies (#[trigger] results[i]) is Ok by {
            if results[i] is Err {
                first_error_exists(results, i);
            }
        }
    } else {
        let k = choose|k: int| is_first_error(results, k);
        assert(results[k] is Err);
    }
}

/// A list with an error is collected into its first error.
pub proof fn collected_fails_at_first_error(results: Seq<Result<Seq<char>, Seq<char>>>, i: int)
    requires
        is_first_error(results, i),
    ensures
        collected(results) is Err,
        collected(results)->Err_0 == results[i]->Err_0,
{
    let k = choose|k: int| is_first_error(results, k);
    first_error_unique(results, i, k);
}

/// A batch is encoded exactly when each of its paths can be encoded. The
/// result then holds one URI for each path, at the path's position.
pub proof fn encode_all_keeps_length_and_order(paths: Seq<Seq<char>>)
    ensures
        encode_all(paths) is Ok <==> (forall|i: int| 0 <= i < paths.len() ==> file_uri_text(#[trigger] paths[i]) is Ok),
        encode_all(paths) is Ok ==> encode_all(paths)->Ok_0.len() == paths.len(),
        encode_all(paths) is Ok ==> (forall|i: int| 0 <= i < paths.len() ==>
            file_uri_text(#[trigger] paths[i])->Ok_0 == encode_all(paths)->Ok_0[i]),
{
    let results = Seq::new(paths.len(), |i: int| file_uri_text(paths[i]));
    collected_keeps_length_and_order(results);
    if encode_all(paths) is Ok {
        assert forall|i: int| 0 <= i < paths.len() implies file_uri_text(#[trigger] paths[i]) is Ok by {
            assert(results[i] is Ok);
        }
        assert forall|i: int| 0 <= i < paths.len() implies file_uri_text(#[trigger] paths[i])->Ok_0 == encode_all(
            paths,
        )->Ok_0[i] by {
            assert(results[i] == file_uri_text(paths[i]));
        }
    } else {
        let k = choose|k: int| 0 <= k < results.len() && !((#[trigger] results[k]) is Ok);
        assert(!(file_uri_text(paths[k]) is Ok));
    }
}

/// Encodes one path as a `file://localhost` URI.
///
/// An absolute path of path-safe characters is always accepted, and its URI is
/// `file`, `:`, two slashes and `localhost`, followed by the path, unchanged.
pub fn file_uri(path: &str) -> (r: Result<String, String>)
    ensures
        text_result(r) == file_uri_text(path@),
        is_plain_path(path@) ==> r is Ok && r->Ok_0@ == plain_uri("file"@, "localhost"@, path@),
{
    let r = build_uri("file", "localhost", path);
    proof {
        reveal_strlit("file");
        reveal_strlit("localhost");
    }
    r
}

/// Gathers the URIs of a list of encoded paths, all or nothing: the first
/// error in the list is the error of the whole.
pub fn collect_uris(encoded: &Vec<Result<String, String>>) -> (r: Result<Vec<String>, String>)
    ensures
        texts_result(r) == collected(text_results(encoded@)),
{
    let ghost results = text_results(encoded@);
    let mut uris: Vec<String> = Vec::new();
    let mut i: usize = 0;
    while i < encoded.len()
        invariant
            i <= encoded.len(),
            results == text_results(encoded@),
            uris@.len() == i,
            forall|j: int| 0 <= j < i ==> (#[trigger] results[j]) is Ok && results[j]->Ok_0 == uris@[j]@,
        decreases encoded.len() - i,
    {
        match &encoded[i] {
            Ok(uri) => {
                uris.push(uri.clone());
            },
            Err(e) => {
                proof {
                    assert(results[i as int] is Err);
                    assert(is_first_error(results, i as int));
                    collected_fails_at_first_error(results, i as int);
                }
                return Err(e.clone());
            },
        }
        i += 1;
    }
    proof {
        assert forall|k: int| !is_first_error(results, k) by {
            if 0 <= k < results.len() {
                assert(results[k] is Ok);
            }
        }
        assert(texts(uris@) =~= Seq::new(results.len(), |i: int| results[i]->Ok_0));
    }
    Ok(uris)
}

/// Converts paths, given by their text, to `file://localhost` URIs.
///
/// The result has one URI for each path, in the order of the paths. The first
/// path that cannot be encoded fails the whole batch with its error, and no
/// path after it is encoded. A batch of absolute paths of path-safe characters
/// is always encoded, each path unchanged behind `file://localhost`.
pub fn pathbuf_to_file_uri(paths: Vec<String>) -> (r: Result<Vec<String>, String>)
    ensures
        texts_result(r) == encode_all(texts(paths@)),
        all_plain(texts(paths@)) ==> r is Ok && texts(r->Ok_0@) == plain_uris(texts(paths@)),
{
    let ghost given = texts(paths@);
    let ghost all = Seq::new(paths@.len(), |i: int| file_uri_text(given[i]));
    let mut encoded: Vec<Result<String, String>> = Vec::new();
    let mut failed = false;
    let mut i: usize = 0;
    while i < paths.len() && !failed
        invariant
            i <= paths.len(),
            given == texts(paths@),
            all == Seq::new(paths@.len(), |i: int| file_uri_text(given[i])),
            encoded@.len() == i,
            forall|j: int| 0 <= j < i ==> text_result(#[trigger] encoded@[j]) == all[j],
            forall|j: int| 0 <= j < i && is_plain_path(given[j]) ==> (#[trigger] encoded@[j]) is Ok
                && encoded@[j]->Ok_0@ == plain_uri("file"@, "localhost"@, given[j]),
            forall|j: int| 0 <= j < i - 1 ==> (#[trigger] all[j]) is Ok,
            failed ==> i >= 1 && all[i - 1] is Err,
            !failed && i >= 1 ==> all[i - 1] is Ok,
        decreases paths.len() - i,
    {
        let one = file_uri(paths[i].as_str());
        failed = one.is_err();
        encoded.push(one);
        i += 1;
    }
    let ghost got = text_results(encoded@);
    proof {
        if failed {
            assert(is_first_error(got, i - 1));
            assert(is_first_error(all, i - 1));
            collected_fails_at_first_error(got, i - 1);
            collected_fails_at_first_error(all, i - 1);
        } else {
            assert(got =~= all);
        }
    }
    let r = collect_uris(&encoded);
    proof {
        if all_plain(given) {
            if failed {
                assert(is_plain_path(given[i - 1]));
                assert(text_result(encoded@[i - 1]) is Ok);
            }
            assert forall|j: int| 0 <= j < got.len() implies (#[trigger] got[j]) is Ok by {
                assert(is_plain_path(given[j]));
                assert(encoded@[j] is Ok);
            }
            collected_keeps_length_and_order(got);
            assert forall|j: int| 0 <= j < given.len() implies texts(r->Ok_0@)[j] == plain_uris(given)[j] by {
                assert(is_plain_path(given[j]));
                assert(got[j]->Ok_0 == collected(got)->Ok_0[j]);
                assert(encoded@[j]->Ok_0@ == plain_uri("file"@, "localhost"@, given[j]));
            }
            assert(texts(r->Ok_0@) =~= plain_uris(given));
        }
    }
    r
}

} // verus!
