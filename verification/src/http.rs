//! Small HTTP-facing parsers: the OAuth loopback callback request and the
//! asset protocol request.

use vstd::prelude::*;
use vstd::string::*;
use vstd::utf8::*;
use crate::percent::{decode, percent_decode_bytes};
use crate::text::{first_index_or_len, is_white_space, is_whitespace_char, lemma_first_index_or_len,
    push_char, push_decimal, push_str, starts_with, str_equals, to_owned_string, decimal};

verus! {

/// Splitting at white space: the finished pieces and the piece being read.
pub open spec fn ws_split(s: Seq<char>) -> (Seq<Seq<char>>, Seq<char>)
    decreases s.len(),
{
    if s.len() == 0 {
        (Seq::empty(), Seq::empty())
    } else {
        let (done, cur) = ws_split(s.drop_last());
        let c = s.last();
        if is_white_space(c) {
            if cur.len() > 0 {
                (done.push(cur), Seq::empty())
            } else {
                (done, Seq::empty())
            }
        } else {
            (done, cur.push(c))
        }
    }
}

/// The non-empty pieces between white space (`str::split_whitespace`).
pub open spec fn ws_tokens(s: Seq<char>) -> Seq<Seq<char>> {
    let (done, cur) = ws_split(s);
    if cur.len() > 0 {
        done.push(cur)
    } else {
        done
    }
}

/// `s.split_whitespace()` collected.
pub fn split_whitespace(s: &str) -> (r: Vec<String>)
    ensures
        r@.map_values(|t: String| t@) == ws_tokens(s@),
{
    let n = s.unicode_len();
    let mut done: Vec<String> = Vec::new();
    let mut cur = String::new();
    let mut i: usize = 0;
    while i < n
        invariant
            n == s@.len(),
            i <= n,
            (done@.map_values(|t: String| t@), cur@) == ws_split(s@.take(i as int)),
        decreases n - i,
    {
        let c = s.get_char(i);
        proof {
            assert(s@.take(i + 1).drop_last() =~= s@.take(i as int));
            assert(s@.take(i + 1).last() == c);
        }
        let ghost d0 = done@.map_values(|t: String| t@);
        if is_whitespace_char(c) {
            if cur.as_str().unicode_len() > 0 {
                let mut piece = String::new();
                std::mem::swap(&mut piece, &mut cur);
                done.push(piece);
                assert(done@.map_values(|t: String| t@) =~= d0.push(piece@));
            }
            cur = String::new();
        } else {
            push_char(&mut cur, c);
        }
        i = i + 1;
    }
    assert(s@.take(n as int) =~= s@);
    if cur.as_str().unicode_len() > 0 {
        let ghost d0 = done@.map_values(|t: String| t@);
        let c2 = cur;
        done.push(c2);
        assert(done@.map_values(|t: String| t@) =~= d0.push(c2@));
    }
    done
}

/// Pieces of `s` between occurrences of `sep` (`str::split`), empty pieces included.
pub open spec fn split_on(s: Seq<char>, sep: char) -> Seq<Seq<char>>
    decreases s.len(),
{
    if s.len() == 0 {
        seq![Seq::empty()]
    } else {
        let prev = split_on(s.drop_last(), sep);
        if s.last() == sep {
            prev.push(Seq::empty())
        } else {
            prev.update(prev.len() - 1, prev.last().push(s.last()))
        }
    }
}

proof fn lemma_split_on_nonempty(s: Seq<char>, sep: char)
    ensures
        split_on(s, sep).len() >= 1,
    decreases s.len(),
{
    if s.len() > 0 {
        lemma_split_on_nonempty(s.drop_last(), sep);
    }
}

/// `s.split(sep)` collected.
pub fn split_char(s: &str, sep: char) -> (r: Vec<String>)
    ensures
        r@.map_values(|t: String| t@) == split_on(s@, sep),
{
    let n = s.unicode_len();
    let mut done: Vec<String> = Vec::new();
    let mut cur = String::new();
    let mut i: usize = 0;
    while i < n
        invariant
            n == s@.len(),
            i <= n,
            done@.map_values(|t: String| t@).push(cur@) == split_on(s@.take(i as int), sep),
        decreases n - i,
    {
        let c = s.get_char(i);
        proof {
            assert(s@.take(i + 1).drop_last() =~= s@.take(i as int));
            assert(s@.take(i + 1).last() == c);
            lemma_split_on_nonempty(s@.take(i as int), sep);
        }
        let ghost d0 = done@.map_values(|t: String| t@);
        let ghost c0 = cur@;
        if c == sep {
            let mut piece = String::new();
                std::mem::swap(&mut piece, &mut cur);
            done.push(piece);
            assert(done@.map_values(|t: String| t@) =~= d0.push(c0));
            assert(done@.map_values(|t: String| t@).push(cur@) =~= d0.push(c0).push(Seq::empty()));
        } else {
            push_char(&mut cur, c);
            assert(done@.map_values(|t: String| t@).push(cur@) =~= d0.push(c0).update(d0.len() as int, c0.push(c)));
        }
        i = i + 1;
    }
    assert(s@.take(n as int) =~= s@);
    let ghost d0 = done@.map_values(|t: String| t@);
    let c2 = cur;
    done.push(c2);
    assert(done@.map_values(|t: String| t@) =~= d0.push(c2@));
    done
}

/// `s.split_once(sep)`: the parts before and after the first `sep`.
pub open spec fn split_once(s: Seq<char>, sep: char) -> Option<(Seq<char>, Seq<char>)> {
    let k = first_index_or_len(s, sep);
    if k < s.len() {
        Some((s.subrange(0, k), s.subrange(k + 1, s.len() as int)))
    } else {
        None
    }
}

pub fn split_once_char(s: &str, sep: char) -> (r: Option<(String, String)>)
    ensures
        match split_once(s@, sep) {
            Some((a, b)) => r matches Some((x, y)) && x@ == a && y@ == b,
            None => r is None,
        },
{
    proof {
        lemma_first_index_or_len(s@, sep);
    }
    let n = s.unicode_len();
    let mut i: usize = 0;
    while i < n
        invariant
            n == s@.len(),
            i <= n,
            forall|j: int| 0 <= j < i ==> s@[j] != sep,
        ensures
            i == n || s@[i as int] == sep,
            forall|j: int| 0 <= j < i ==> s@[j] != sep,
        decreases n - i,
    {
        if s.get_char(i) == sep {
            break;
        }
        i = i + 1;
    }
    assert(i as int == first_index_or_len(s@, sep));
    if i < n {
        Some((to_owned_string(s.substring_char(0, i)), to_owned_string(s.substring_char(i + 1, n))))
    } else {
        None
    }
}

/// What the OAuth callback's query carries.
pub ghost struct CallbackParams {
    pub code: Option<Seq<char>>,
    pub state: Option<Seq<char>>,
    pub error: Option<Seq<char>>,
}

/// A query value decoded as the callback server decodes it: percent-decoded,
/// and empty when the result is not UTF-8.
pub open spec fn decoded_value(v: Seq<char>) -> Seq<char> {
    let b = percent_decode_bytes(encode_utf8(v));
    if valid_utf8(b) {
        decode_utf8(b)
    } else {
        Seq::empty()
    }
}

/// The `code`, `state` and `error` parameters of the query pieces; a later
/// piece with the same key wins, pieces without `=` are ignored.
pub open spec fn callback_params(pieces: Seq<Seq<char>>) -> CallbackParams
    decreases pieces.len(),
{
    if pieces.len() == 0 {
        CallbackParams { code: None, state: None, error: None }
    } else {
        let p = callback_params(pieces.drop_last());
        match split_once(pieces.last(), '=') {
            Some((k, v)) => if k == "code"@ {
                CallbackParams { code: Some(decoded_value(v)), ..p }
            } else if k == "state"@ {
                CallbackParams { state: Some(decoded_value(v)), ..p }
            } else if k == "error"@ {
                CallbackParams { error: Some(decoded_value(v)), ..p }
            } else {
                p
            },
            None => p,
        }
    }
}

/// The outcome the callback server reports for a request path.
pub open spec fn callback_outcome(path: Seq<char>) -> Result<(Seq<char>, Seq<char>), Seq<char>> {
    let q = first_index_or_len(path, '?');
    let p = if q < path.len() {
        callback_params(split_on(path.subrange(q + 1, path.len() as int), '&'))
    } else {
        CallbackParams { code: None, state: None, error: None }
    };
    match p.error {
        Some(e) => Err("OAuth error: "@ + e),
        None => match (p.code, p.state) {
            (Some(c), Some(s)) => Ok((c, s)),
            _ => Err("Missing code or state parameter"@),
        },
    }
}

fn decode_or_empty(v: &str) -> (r: String)
    ensures
        r@ == decoded_value(v@),
{
    match decode(v) {
        Some(s) => s,
        None => String::new(),
    }
}

/// Reads the OAuth result from the request line the loopback server got
/// (`GET /callback?code=..&state=.. HTTP/1.1`). `None` when the line has no
/// path, in which case nothing is reported.
pub fn parse_callback_request(request_line: &str) -> (r: Option<Result<(String, String), String>>)
    ensures
        ws_tokens(request_line@).len() < 2 ==> r is None,
        ws_tokens(request_line@).len() >= 2 ==> match callback_outcome(ws_tokens(request_line@)[1]) {
            Ok((c, s)) => r matches Some(Ok((x, y))) && x@ == c && y@ == s,
            Err(e) => r matches Some(Err(x)) && x@ == e,
        },
{
    let parts = split_whitespace(request_line);
    if parts.len() < 2 {
        return None;
    }
    let path = parts[1].as_str();
    proof {
        assert(parts@.map_values(|t: String| t@)[1] == parts@[1]@);
        lemma_first_index_or_len(path@, '?');
    }
    let n = path.unicode_len();
    let mut q: usize = 0;
    while q < n
        invariant
            n == path@.len(),
            q <= n,
            forall|j: int| 0 <= j < q ==> path@[j] != '?',
        ensures
            q == n || path@[q as int] == '?',
            forall|j: int| 0 <= j < q ==> path@[j] != '?',
        decreases n - q,
    {
        if path.get_char(q) == '?' {
            break;
        }
        q = q + 1;
    }
    assert(q as int == first_index_or_len(path@, '?'));
    let mut code: Option<String> = None;
    let mut state: Option<String> = None;
    let mut error: Option<String> = None;
    if q < n {
        let query = path.substring_char(q + 1, n);
        let pieces = split_char(query, '&');
        let ghost pv = pieces@.map_values(|t: String| t@);
        let m = pieces.len();
        let mut i: usize = 0;
        while i < m
            invariant
                m == pieces@.len(),
                pv == pieces@.map_values(|t: String| t@),
                i <= m,
                callback_params(pv.take(i as int)) == (CallbackParams {
                    code: match code { Some(c) => Some(c@), None => None },
                    state: match state { Some(c) => Some(c@), None => None },
                    error: match error { Some(c) => Some(c@), None => None },
                }),
            decreases m - i,
        {
            proof {
                assert(pv.take(i + 1).drop_last() =~= pv.take(i as int));
                assert(pv.take(i + 1).last() == pieces@[i as int]@);
            }
            match split_once_char(pieces[i].as_str(), '=') {
                Some((key, value)) => {
                    if str_equals(key.as_str(), "code") {
                        code = Some(decode_or_empty(value.as_str()));
                    } else if str_equals(key.as_str(), "state") {
                        state = Some(decode_or_empty(value.as_str()));
                    } else if str_equals(key.as_str(), "error") {
                        error = Some(decode_or_empty(value.as_str()));
                    }
                },
                None => {},
            }
            i = i + 1;
        }
        assert(pv.take(m as int) =~= pv);
    }
    match error {
        Some(e) => {
            let mut msg = String::new();
            push_str(&mut msg, "OAuth error: ");
            push_str(&mut msg, e.as_str());
            Some(Err(msg))
        },
        None => match (code, state) {
            (Some(c), Some(s)) => Some(Ok((c, s))),
            _ => Some(Err(to_owned_string("Missing code or state parameter"))),
        },
    }
}

/// The page shown after a successful sign-in.
pub const CALLBACK_SUCCESS_BODY: &'static str = "<!DOCTYPE html>
<html>
<head><title>OAuth Complete</title></head>
<body style=\"font-family: system-ui; display: flex; justify-content: center; align-items: center; height: 100vh; margin: 0; background: #1a1a1a; color: #fff;\">
<div style=\"text-align: center;\">
<h1 style=\"color: #14b8a6;\">Authentication Successful</h1>
<p>You can close this window and return to Noema.</p>
</div>
</body>
</html>";

/// The page shown after a failed sign-in.
pub const CALLBACK_FAILURE_BODY: &'static str = "<!DOCTYPE html>
<html>
<head><title>OAuth Failed</title></head>
<body style=\"font-family: system-ui; display: flex; justify-content: center; align-items: center; height: 100vh; margin: 0; background: #1a1a1a; color: #fff;\">
<div style=\"text-align: center;\">
<h1 style=\"color: #ef4444;\">Authentication Failed</h1>
<p>Please close this window and try again.</p>
</div>
</body>
</html>";

/// An HTML response with the given status line text and body.
pub open spec fn html_response(status: Seq<char>, body: &str) -> Seq<char> {
    "HTTP/1.1 "@ + status + "\r\nContent-Type: text/html\r\nContent-Length: "@ + decimal(
        body.len() as nat,
    ) + "\r\nConnection: close\r\n\r\n"@ + body@
}

/// An HTML response text.
pub fn html_response_text(status: &str, body: &str) -> (r: String)
    ensures
        r@ == html_response(status@, body),
{
    let mut r = String::new();
    push_str(&mut r, "HTTP/1.1 ");
    push_str(&mut r, status);
    push_str(&mut r, "\r\nContent-Type: text/html\r\nContent-Length: ");
    push_decimal(&mut r, body.len() as u64);
    push_str(&mut r, "\r\nConnection: close\r\n\r\n");
    push_str(&mut r, body);
    assert(r@ =~= html_response(status@, body));
    r
}

/// The HTTP response the loopback server sends back to the browser.
pub fn callback_http_response(success: bool) -> (r: String)
    ensures
        success ==> r@ == html_response("200 OK"@, CALLBACK_SUCCESS_BODY),
        !success ==> r@ == html_response("400 Bad Request"@, CALLBACK_FAILURE_BODY),
{
    if success {
        html_response_text("200 OK", CALLBACK_SUCCESS_BODY)
    } else {
        html_response_text("400 Bad Request", CALLBACK_FAILURE_BODY)
    }
}

/// `s` with every leading `c` removed (`trim_start_matches(c)`).
pub open spec fn trim_leading(s: Seq<char>, c: char) -> Seq<char>
    decreases s.len(),
{
    if s.len() > 0 && s[0] == c {
        trim_leading(s.drop_first(), c)
    } else {
        s
    }
}

/// The blob hash named by an asset request path (`/{blob_hash}`); `None`
/// when there is none.
pub fn asset_blob_hash(path: &str) -> (r: Option<String>)
    ensures
        trim_leading(path@, '/').len() == 0 ==> r is None,
        trim_leading(path@, '/').len() > 0 ==> (r matches Some(h) && h@ == trim_leading(path@, '/')),
{
    let n = path.unicode_len();
    let mut i: usize = 0;
    proof {
        assert(path@.skip(0) =~= path@);
    }
    while i < n && path.get_char(i) == '/'
        invariant
            n == path@.len(),
            i <= n,
            trim_leading(path@.skip(i as int), '/') == trim_leading(path@, '/'),
        decreases n - i,
    {
        assert(path@.skip(i as int).drop_first() =~= path@.skip(i + 1));
        i = i + 1;
    }
    let rest = path.substring_char(i, n);
    assert(rest@ =~= path@.skip(i as int));
    if rest.unicode_len() == 0 {
        None
    } else {
        Some(to_owned_string(rest))
    }
}

/// `s` with repeated leading copies of `pat` removed (`trim_start_matches(pat)`).
pub open spec fn trim_prefix_all(s: Seq<char>, pat: Seq<char>) -> Seq<char>
    decreases s.len(),
{
    if pat.len() > 0 && pat.len() <= s.len() && s.subrange(0, pat.len() as int) == pat {
        trim_prefix_all(s.subrange(pat.len() as int, s.len() as int), pat)
    } else {
        s
    }
}

/// The first query piece starting with `mime_type=`.
pub open spec fn first_mime_piece(pieces: Seq<Seq<char>>) -> Option<Seq<char>>
    decreases pieces.len(),
{
    if pieces.len() == 0 {
        None
    } else if "mime_type="@.len() <= pieces[0].len() && pieces[0].subrange(0, "mime_type="@.len() as int)
        == "mime_type="@ {
        Some(pieces[0])
    } else {
        first_mime_piece(pieces.drop_first())
    }
}

/// The MIME type an asset request asks for: the decoded `mime_type`
/// parameter (empty when it does not decode to UTF-8), else
/// `application/octet-stream`.
pub open spec fn asset_mime(query: Option<Seq<char>>) -> Seq<char> {
    match query {
        Some(q) => match first_mime_piece(split_on(q, '&')) {
            Some(p) => decoded_value(trim_prefix_all(p, "mime_type="@)),
            None => "application/octet-stream"@,
        },
        None => "application/octet-stream"@,
    }
}

fn trim_prefix_str(s: &str, pat: &str) -> (r: String)
    requires
        pat@.len() > 0,
    ensures
        r@ == trim_prefix_all(s@, pat@),
{
    let mut cur = to_owned_string(s);
    while starts_with(cur.as_str(), pat)
        invariant
            pat@.len() > 0,
            trim_prefix_all(cur@, pat@) == trim_prefix_all(s@, pat@),
        decreases cur@.len(),
    {
        let next = to_owned_string(cur.as_str().substring_char(pat.unicode_len(), cur.as_str().unicode_len()));
        cur = next;
    }
    cur
}

pub fn asset_mime_type(query: Option<&str>) -> (r: String)
    ensures
        r@ == asset_mime(
            match query {
                Some(q) => Some(q@),
                None => None,
            },
        ),
{
    match query {
        None => to_owned_string("application/octet-stream"),
        Some(q) => {
            let pieces = split_char(q, '&');
            let ghost pv = pieces@.map_values(|t: String| t@);
            let m = pieces.len();
            let mut i: usize = 0;
            proof {
                assert(pv.skip(0) =~= pv);
            }
            while i < m
                invariant
                    m == pieces@.len(),
                    pv == pieces@.map_values(|t: String| t@),
                    pv == split_on(q@, '&'),
                    query == Some(q),
                    i <= m,
                    first_mime_piece(pv.skip(i as int)) == first_mime_piece(pv),
                decreases m - i,
            {
                proof {
                    assert(pv.skip(i as int)[0] == pieces@[i as int]@);
                    assert(pv.skip(i as int).drop_first() =~= pv.skip(i + 1));
                }
                if starts_with(pieces[i].as_str(), "mime_type=") {
                    proof {
                        reveal_strlit("mime_type=");
                        assert(first_mime_piece(pv.skip(i as int)) == Some(pieces@[i as int]@));
                    }
                    let value = trim_prefix_str(pieces[i].as_str(), "mime_type=");
                    return decode_or_empty(value.as_str());
                }
                i = i + 1;
            }
            proof {
                assert(pv.skip(m as int) =~= Seq::<Seq<char>>::empty());
            }
            to_owned_string("application/octet-stream")
        },
    }
}

/// The body of the not-found response for a blob.
pub fn blob_not_found_body(blob_hash: &str) -> (r: String)
    ensures
        r@ == "Blob not found: "@ + blob_hash@,
{
    let mut s = String::new();
    push_str(&mut s, "Blob not found: ");
    push_str(&mut s, blob_hash);
    s
}

/// Headers of a served asset: blobs are content-addressed, so they are
/// cached forever and tagged with their hash.
pub fn asset_headers(blob_hash: &str, mime_type: String, len: usize) -> (r: Vec<(String, String)>)
    ensures
        r@.len() == 4,
        r@[0].0@ == "Content-Type"@ && r@[0].1 == mime_type,
        r@[1].0@ == "Content-Length"@ && r@[1].1@ == decimal(len as nat),
        r@[2].0@ == "Cache-Control"@ && r@[2].1@ == "public, max-age=31536000, immutable"@,
        r@[3].0@ == "ETag"@ && r@[3].1@ == seq!['"'] + blob_hash@ + seq!['"'],
{
    let mut h: Vec<(String, String)> = Vec::new();
    h.push((to_owned_string("Content-Type"), mime_type));
    let mut l = String::new();
    push_decimal(&mut l, len as u64);
    h.push((to_owned_string("Content-Length"), l));
    h.push((to_owned_string("Cache-Control"), to_owned_string("public, max-age=31536000, immutable")));
    let mut e = String::new();
    push_char(&mut e, '"');
    push_str(&mut e, blob_hash);
    push_char(&mut e, '"');
    assert(e@ =~= seq!['"'] + blob_hash@ + seq!['"']);
    h.push((to_owned_string("ETag"), e));
    h
}

/// The reply to an asset request.
pub struct AssetResponse {
    pub status: u16,
    pub headers: Vec<(String, String)>,
    pub body: Vec<u8>,
}

/// A plain-text reply.
pub open spec fn text_reply(r: AssetResponse, status: u16, text: Seq<char>) -> bool {
    &&& r.status == status
    &&& r.headers@.len() == 1
    &&& r.headers@[0].0@ == "Content-Type"@
    &&& r.headers@[0].1@ == "text/plain"@
    &&& r.body@ == encode_utf8(text)
}

fn text_response(status: u16, text: &str) -> (r: AssetResponse)
    ensures
        text_reply(r, status, text@),
{
    let mut headers: Vec<(String, String)> = Vec::new();
    headers.push((to_owned_string("Content-Type"), to_owned_string("text/plain")));
    AssetResponse { status, headers, body: text.as_bytes_vec() }
}

/// Serves an asset request. `blob_hash` is what [`asset_blob_hash`] read
/// from the path; `store` is what the blob store gave for it (`None` when
/// storage is not initialized, `Some(None)` when it has no such blob);
/// `query` is the request's query. A request without a hash is refused with
/// 400 `Missing blob_hash` (the store is not consulted), missing storage is
/// 500 `Storage not initialized`, an unknown blob 404 `Blob not found: {hash}`;
/// a found blob is served with status 200 and [`asset_headers`] for the
/// MIME type the query asks for.
pub fn asset_response(blob_hash: Option<&str>, store: Option<Option<Vec<u8>>>, query: Option<&str>) -> (r:
    AssetResponse)
    ensures
        match blob_hash {
            None => text_reply(r, 400, "Missing blob_hash"@),
            Some(h) => match store {
                None => text_reply(r, 500, "Storage not initialized"@),
                Some(None) => text_reply(r, 404, "Blob not found: "@ + h@),
                Some(Some(d)) => {
                    &&& r.status == 200
                    &&& r.body == d
                    &&& r.headers@.len() == 4
                    &&& r.headers@[0].0@ == "Content-Type"@
                    &&& r.headers@[0].1@ == asset_mime(
                        match query {
                            Some(q) => Some(q@),
                            None => None,
                        },
                    )
                    &&& r.headers@[1].0@ == "Content-Length"@
                    &&& r.headers@[1].1@ == decimal(d@.len())
                    &&& r.headers@[2].0@ == "Cache-Control"@
                    &&& r.headers@[2].1@ == "public, max-age=31536000, immutable"@
                    &&& r.headers@[3].0@ == "ETag"@
                    &&& r.headers@[3].1@ == seq!['"'] + h@ + seq!['"']
                },
            },
        },
{
    match blob_hash {
        None => text_response(400, "Missing blob_hash"),
        Some(h) => match store {
            None => text_response(500, "Storage not initialized"),
            Some(None) => {
                let body = blob_not_found_body(h);
                text_response(404, body.as_str())
            },
            Some(Some(d)) => {
                let mime = asset_mime_type(query);
                let headers = asset_headers(h, mime, d.len());
                AssetResponse { status: 200, headers, body: d }
            },
        },
    }
}

} // verus!
