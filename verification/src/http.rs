//! The decisions of the HTTP subcommands (`fetch`, `out`): the URL to request,
//! where a redirect leads, how a response body is shown, and the name of a
//! downloaded file.
use vstd::prelude::*;
use crate::error::NtkError;
use crate::text::{
    decimal, push_decimal,
    ascii_lower, chars_of, contains_chars, contains_text, has_prefix, is_whitespace, push_str,
    split_chars, split_on, starts_with_chars, string_of, to_ascii_lower, char_is_whitespace,
};

verus! {

/// `http://` as characters.
pub open spec fn http_scheme() -> Seq<char> {
    seq!['h', 't', 't', 'p', ':', '/', '/']
}

/// `https://` as characters.
pub open spec fn https_scheme() -> Seq<char> {
    seq!['h', 't', 't', 'p', 's', ':', '/', '/']
}

/// The URL requested for what the user gave: as given when it starts with
/// `http://` or `https://`, else with `http://` (when `http` is set) or
/// `https://` in front.
pub open spec fn request_url(url_or_ip: Seq<char>, http: bool) -> Seq<char> {
    if has_prefix(url_or_ip, http_scheme()) || has_prefix(url_or_ip, https_scheme()) {
        url_or_ip
    } else if http {
        http_scheme() + url_or_ip
    } else {
        https_scheme() + url_or_ip
    }
}

/// Builds the URL to request (see `request_url`).
pub fn normalize_url(url_or_ip: &str, http: bool) -> (url: String)
    ensures
        url@ == request_url(url_or_ip@, http),
{
    let u = chars_of(url_or_ip);
    let h = vec!['h', 't', 't', 'p', ':', '/', '/'];
    let hs = vec!['h', 't', 't', 'p', 's', ':', '/', '/'];
    assert(h@ =~= http_scheme());
    assert(hs@ =~= https_scheme());
    if starts_with_chars(&u, &h) || starts_with_chars(&u, &hs) {
        return string_of(&u);
    }
    let mut s = if http {
        string_of(&h)
    } else {
        string_of(&hs)
    };
    push_str(&mut s, url_or_ip);
    s
}

/// The request methods of the `out` subcommand.
#[derive(Clone, Copy, Debug, PartialEq, Eq, Structural)]
pub enum HttpMethod {
    Post,
    Patch,
    Put,
    Delete,
}

/// The name of a request method as it goes on the wire.
pub open spec fn method_name(method: HttpMethod) -> &'static str {
    match method {
        HttpMethod::Post => "POST",
        HttpMethod::Patch => "PATCH",
        HttpMethod::Put => "PUT",
        HttpMethod::Delete => "DELETE",
    }
}

/// The name of a request method as it goes on the wire.
pub fn method_str(method: &HttpMethod) -> (s: &'static str)
    ensures
        s == method_name(*method),
{
    match method {
        HttpMethod::Post => "POST",
        HttpMethod::Patch => "PATCH",
        HttpMethod::Put => "PUT",
        HttpMethod::Delete => "DELETE",
    }
}

/// `application/json` as characters.
pub open spec fn json_type() -> Seq<char> {
    seq!['a', 'p', 'p', 'l', 'i', 'c', 'a', 't', 'i', 'o', 'n', '/', 'j', 's', 'o', 'n']
}

fn json_type_chars() -> (v: Vec<char>)
    ensures
        v@ == json_type(),
{
    let v = vec!['a', 'p', 'p', 'l', 'i', 'c', 'a', 't', 'i', 'o', 'n', '/', 'j', 's', 'o', 'n'];
    assert(v@ =~= json_type());
    v
}

/// A response is shown as JSON by `out` when its content type (readable as
/// text) contains `application/json`.
pub fn is_json_content_type(content_type: Option<&str>) -> (r: bool)
    ensures
        r == (content_type matches Some(ct) && contains_text(ct@, json_type())),
{
    match content_type {
        Some(ct) => contains_chars(&chars_of(ct), &json_type_chars()),
        None => false,
    }
}

/// How `fetch` shows a response body, by its content type.
#[derive(Clone, Copy, Debug, PartialEq, Eq, Structural)]
pub enum ContentAction {
    /// No content type: print the body text.
    RawText,
    /// JSON: parse it and show it compactly, on the screen or in the file.
    Json,
    /// Text: show it on the screen or in the file.
    Text,
    /// Anything else: report the unexpected type, with a hint to download when
    /// it mentions bytes.
    Unexpected { bytes_hint: bool },
}

/// The way `fetch` shows a body with the given content type (see
/// `ContentAction`): exactly `application/json` is JSON; exactly `text/plain`,
/// exactly `text/html`, or any type that contains `text` is text.
pub open spec fn content_action(content_type: Option<Seq<char>>) -> ContentAction {
    match content_type {
        None => ContentAction::RawText,
        Some(ct) => if ct == json_type() {
            ContentAction::Json
        } else if ct == seq!['t', 'e', 'x', 't', '/', 'p', 'l', 'a', 'i', 'n'] || ct == seq![
            't',
            'e',
            'x',
            't',
            '/',
            'h',
            't',
            'm',
            'l',
        ] || contains_text(ct, seq!['t', 'e', 'x', 't']) {
            ContentAction::Text
        } else {
            ContentAction::Unexpected { bytes_hint: contains_text(ct, seq!['b', 'y', 't', 'e']) }
        },
    }
}

/// Decides how `fetch` shows a body (see `content_action`).
pub fn classify_content_type(content_type: Option<&str>) -> (a: ContentAction)
    ensures
        a == content_action(
            match content_type {
                Some(ct) => Some(ct@),
                None => None,
            },
        ),
{
    match content_type {
        None => ContentAction::RawText,
        Some(ct) => {
            let c = chars_of(ct);
            let text = vec!['t', 'e', 'x', 't'];
            let byte = vec!['b', 'y', 't', 'e'];
            let plain = vec!['t', 'e', 'x', 't', '/', 'p', 'l', 'a', 'i', 'n'];
            let html = vec!['t', 'e', 'x', 't', '/', 'h', 't', 'm', 'l'];
            assert(text@ =~= seq!['t', 'e', 'x', 't']);
            assert(byte@ =~= seq!['b', 'y', 't', 'e']);
            assert(plain@ =~= seq!['t', 'e', 'x', 't', '/', 'p', 'l', 'a', 'i', 'n']);
            assert(html@ =~= seq!['t', 'e', 'x', 't', '/', 'h', 't', 'm', 'l']);
            if crate::text::chars_eq(&c, &json_type_chars()) {
                ContentAction::Json
            } else if crate::text::chars_eq(&c, &plain) || crate::text::chars_eq(&c, &html)
                || contains_chars(&c, &text) {
                ContentAction::Text
            } else {
                ContentAction::Unexpected { bytes_hint: contains_chars(&c, &byte) }
            }
        },
    }
}

#[verifier::external_type_specification]
#[verifier::external_body]
pub struct ExUrlParseError(url::ParseError);

/// The URL that `location` leads to from `base`, as the URL library resolves a
/// relative reference against a base URL, in its serialized form; nothing when
/// either does not parse.
pub uninterp spec fn url_join_spec(base: Seq<char>, location: Seq<char>) -> Option<Seq<char>>;

/// `url::Url::join`, after `url::Url::parse` of the base: resolves `location`
/// against `base` and gives the result's text. It is taken as the function
/// `url_join_spec` of its arguments (`Ok` exactly when that is `Some`); which
/// error comes out otherwise is not stated.
#[verifier::external_body]
fn url_join(base: &str, location: &str) -> (r: Result<String, url::ParseError>)
    ensures
        r is Ok <==> url_join_spec(base@, location@) is Some,
        r matches Ok(s) ==> s@ == url_join_spec(base@, location@).unwrap(),
{
    let b = url::Url::parse(base)?;
    Ok(b.join(location)?.to_string())
}

/// The text of a URL parse error (its `Display`); nothing is stated of it.
#[verifier::external_body]
fn url_error_text(e: &url::ParseError) -> String {
    e.to_string()
}

/// `http` as characters.
pub open spec fn http_word() -> Seq<char> {
    seq!['h', 't', 't', 'p']
}

/// Where a redirect leads: the location itself when it starts with `http`, else
/// the location resolved against the current URL.
/// A URL that does not parse is reported as `UrlParseFailure`.
pub fn redirect_target(current_url: &str, location: &str) -> (r: Result<String, NtkError>)
    ensures
        has_prefix(location@, http_word()) ==> (r matches Ok(s) && s@ == location@),
        !has_prefix(location@, http_word()) ==> {
            &&& r is Ok <==> url_join_spec(current_url@, location@) is Some
            &&& r matches Ok(s) ==> s@ == url_join_spec(current_url@, location@).unwrap()
            &&& r is Err ==> r matches Err(NtkError::UrlParseFailure(_))
        },
{
    let l = chars_of(location);
    let h = vec!['h', 't', 't', 'p'];
    assert(h@ =~= http_word());
    if starts_with_chars(&l, &h) {
        Ok(string_of(&l))
    } else {
        match url_join(current_url, location) {
            Ok(u) => Ok(u),
            Err(e) => Err(NtkError::UrlParseFailure(url_error_text(&e))),
        }
    }
}

/// What `fetch` does after a response.
#[derive(Debug)]
pub enum FetchStep {
    /// Follow the redirect to this URL.
    Redirect(String),
    /// The response is final: show its body, then stop. `no_redirects` is set when
    /// it answered the first request, so that "(No redirects)" is reported first.
    ShowContent { no_redirects: bool },
    /// The response is final and its body is left out (`--no-content`): stop.
    /// `no_redirects` as for `ShowContent`.
    Done { no_redirects: bool },
}

/// Decides what `fetch` does after the response to request number `hop`
/// (from 0) for `url`, given its `Location` header.
pub fn fetch_step(hop: u8, url: &str, location: Option<&str>, no_content: bool) -> (r: Result<
    FetchStep,
    NtkError,
>)
    ensures
        match location {
            Some(loc) => {
                &&& has_prefix(loc@, http_word()) ==> (r matches Ok(FetchStep::Redirect(s)) && s@ == loc@)
                &&& !has_prefix(loc@, http_word()) ==> {
                    &&& r is Ok <==> url_join_spec(url@, loc@) is Some
                    &&& r matches Ok(step) ==> (step matches FetchStep::Redirect(s) && s@
                        == url_join_spec(url@, loc@).unwrap())
                    &&& r is Err ==> r matches Err(NtkError::UrlParseFailure(_))
                }
            },
            None => if !no_content {
                r == Ok::<FetchStep, NtkError>(FetchStep::ShowContent { no_redirects: hop == 0 })
            } else {
                r == Ok::<FetchStep, NtkError>(FetchStep::Done { no_redirects: hop == 0 })
            },
        },
{
    match location {
        Some(loc) => match redirect_target(url, loc) {
            Ok(u) => Ok(FetchStep::Redirect(u)),
            Err(e) => Err(e),
        },
        None => {
            let first = hop == 0;
            if !no_content {
                Ok(FetchStep::ShowContent { no_redirects: first })
            } else {
                Ok(FetchStep::Done { no_redirects: first })
            }
        },
    }
}

/// `s` without white space at either end (as `str::trim` gives it).
pub open spec fn trimmed(s: Seq<char>) -> Seq<char>
    decreases s.len(),
{
    if s.len() > 0 && is_whitespace(s[0]) {
        trimmed(s.drop_first())
    } else if s.len() > 0 && is_whitespace(s.last()) {
        trimmed(s.drop_last())
    } else {
        s
    }
}

/// Trims white space at both ends (see `trimmed`).
pub fn trim_chars(s: &Vec<char>) -> (r: Vec<char>)
    ensures
        r@ == trimmed(s@),
{
    let mut lo: usize = 0;
    let mut hi: usize = s.len();
    assert(s@.subrange(0, s@.len() as int) =~= s@);
    while lo < hi && char_is_whitespace(s[lo])
        invariant
            lo <= hi <= s@.len(),
            hi == s@.len(),
            trimmed(s@) == trimmed(s@.subrange(lo as int, hi as int)),
        decreases hi - lo,
    {
        proof {
            assert(s@.subrange(lo as int, hi as int).drop_first() =~= s@.subrange(lo + 1, hi as int));
        }
        lo = lo + 1;
    }
    while lo < hi && char_is_whitespace(s[hi - 1])
        invariant
            lo <= hi <= s@.len(),
            trimmed(s@) == trimmed(s@.subrange(lo as int, hi as int)),
            lo < hi ==> !is_whitespace(s@[lo as int]),
        decreases hi - lo,
    {
        proof {
            let t = s@.subrange(lo as int, hi as int);
            assert(t.drop_last() =~= s@.subrange(lo as int, hi - 1));
            assert(t[0] == s@[lo as int]);
        }
        hi = hi - 1;
    }
    let mut r: Vec<char> = Vec::new();
    let mut i = lo;
    while i < hi
        invariant
            lo <= i <= hi <= s@.len(),
            r@ == s@.subrange(lo as int, i as int),
        decreases hi - i,
    {
        r.push(s[i]);
        proof {
            assert(s@.subrange(lo as int, i + 1) =~= s@.subrange(lo as int, i as int).push(s@[i as int]));
        }
        i = i + 1;
    }
    proof {
        let t = s@.subrange(lo as int, hi as int);
        if t.len() > 0 {
            assert(t[0] == s@[lo as int]);
            assert(t.last() == s@[hi - 1]);
        }
    }
    r
}

/// `filename=` as characters.
pub open spec fn filename_key() -> Seq<char> {
    seq!['f', 'i', 'l', 'e', 'n', 'a', 'm', 'e', '=']
}

/// `s` without any number of leading `filename=` (as
/// `trim_start_matches("filename=")` gives it).
pub open spec fn strip_filename_key(s: Seq<char>) -> Seq<char>
    decreases s.len(),
{
    if has_prefix(s, filename_key()) {
        strip_filename_key(s.subrange(9, s.len() as int))
    } else {
        s
    }
}

/// The file name a `Content-Disposition` value gives: the first `;`-separated
/// part that, trimmed and in lower case, starts with `filename=`, with the
/// (case-sensitive) `filename=` prefixes stripped.
pub open spec fn disposition_filename(value: Seq<char>) -> Option<Seq<char>> {
    let parts = split_on(value, ';');
    if exists|i: int| 0 <= i < parts.len() && is_filename_part(#[trigger] parts[i]) {
        let i = choose|i: int| 0 <= i < parts.len() && is_filename_part(#[trigger] parts[i]) && forall|j: int| 0 <= j < i ==> !is_filename_part(#[trigger] parts[j]);
        Some(strip_filename_key(trimmed(parts[i])))
    } else {
        None
    }
}

/// The trimmed part starts with `filename=`, ignoring case.
pub open spec fn is_filename_part(part: Seq<char>) -> bool {
    has_prefix(trimmed(part).map_values(|c: char| ascii_lower(c)), filename_key())
}

/// Strips leading `filename=` (see `strip_filename_key`).
fn strip_filename_chars(s: &Vec<char>) -> (r: Vec<char>)
    ensures
        r@ == strip_filename_key(s@),
{
    let key = vec!['f', 'i', 'l', 'e', 'n', 'a', 'm', 'e', '='];
    assert(key@ =~= filename_key());
    let mut start: usize = 0;
    assert(s@.subrange(0, s@.len() as int) =~= s@);
    loop
        invariant
            key@ == filename_key(),
            start <= s@.len(),
            strip_filename_key(s@) == strip_filename_key(s@.subrange(start as int, s@.len() as int)),
        decreases s@.len() - start,
    {
        let mut rest: Vec<char> = Vec::new();
        let mut i = start;
        while i < s.len()
            invariant
                start <= i <= s@.len(),
                rest@ == s@.subrange(start as int, i as int),
            decreases s@.len() - i,
        {
            rest.push(s[i]);
            proof {
                assert(s@.subrange(start as int, i + 1) =~= s@.subrange(start as int, i as int).push(s@[i as int]));
            }
            i = i + 1;
        }
        if starts_with_chars(&rest, &key) {
            proof {
                let t = s@.subrange(start as int, s@.len() as int);
                assert(t.subrange(9, t.len() as int) =~= s@.subrange(start + 9, s@.len() as int));
            }
            start = start + 9;
        } else {
            return rest;
        }
    }
}

/// The file name in a `Content-Disposition` value (see `disposition_filename`).
pub fn filename_from_disposition(value: &str) -> (r: Option<String>)
    ensures
        match disposition_filename(value@) {
            Some(f) => r matches Some(s) && s@ == f,
            None => r is None,
        },
{
    let parts = split_chars(&chars_of(value), ';');
    let key = vec!['f', 'i', 'l', 'e', 'n', 'a', 'm', 'e', '='];
    assert(key@ =~= filename_key());
    let ghost ps = split_on(value@, ';');
    let mut i: usize = 0;
    while i < parts.len()
        invariant
            key@ == filename_key(),
            ps == split_on(value@, ';'),
            parts@.len() == ps.len(),
            forall|k: int| 0 <= k < parts@.len() ==> #[trigger] parts@[k]@ == ps[k],
            i <= parts@.len(),
            forall|j: int| 0 <= j < i ==> !is_filename_part(#[trigger] ps[j]),
        decreases parts@.len() - i,
    {
        let t = trim_chars(&parts[i]);
        let lower = to_ascii_lower(&t);
        if starts_with_chars(&lower, &key) {
            proof {
                assert(is_filename_part(ps[i as int]));
                let c = choose|c: int| 0 <= c < ps.len() && is_filename_part(#[trigger] ps[c]) && forall|j: int| 0 <= j < c ==> !is_filename_part(#[trigger] ps[j]);
                assert(c == i) by {
                    if c < i {
                        assert(!is_filename_part(ps[c]));
                    }
                    if c > i {
                        assert(!is_filename_part(ps[i as int]));
                    }
                }
            }
            let f = strip_filename_chars(&t);
            return Some(string_of(&f));
        }
        i = i + 1;
    }
    None
}

/// The name under which `fetch --download` saves a file: the given path; else
/// the file name from the `Content-Disposition` header; else the last segment
/// of the URL's path when it is not empty; else the URL's host; else
/// `ntk-downloaded-file`.
pub open spec fn download_name(
    download_path: Option<Seq<char>>,
    disposition: Option<Seq<char>>,
    last_segment: Option<Seq<char>>,
    host: Option<Seq<char>>,
) -> Seq<char> {
    match download_path {
        Some(p) => p,
        None => match (match disposition {
            Some(d) => disposition_filename(d),
            None => None,
        }) {
            Some(f) => f,
            None => match last_segment {
                Some(seg) => if seg.len() > 0 {
                    seg
                } else {
                    match host {
                        Some(h) => h,
                        None => "ntk-downloaded-file"@,
                    }
                },
                None => match host {
                    Some(h) => h,
                    None => "ntk-downloaded-file"@,
                },
            },
        },
    }
}

/// Chooses the name of a downloaded file (see `download_name`). The
/// disposition is the header value when it reads as text; the last segment and
/// the host come from the final URL of the response.
pub fn download_filename(
    download_path: Option<String>,
    disposition: Option<&str>,
    last_segment: Option<&str>,
    host: Option<&str>,
) -> (name: String)
    ensures
        name@ == download_name(
            match download_path {
                Some(p) => Some(p@),
                None => None,
            },
            match disposition {
                Some(d) => Some(d@),
                None => None,
            },
            match last_segment {
                Some(s) => Some(s@),
                None => None,
            },
            match host {
                Some(h) => Some(h@),
                None => None,
            },
        ),
{
    if let Some(p) = download_path {
        return p;
    }
    let from_header = match disposition {
        Some(d) => filename_from_disposition(d),
        None => None,
    };
    if let Some(f) = from_header {
        return f;
    }
    let mut s = String::new();
    match last_segment {
        Some(seg) if seg.unicode_len() > 0 => {
            push_str(&mut s, seg);
            return s;
        },
        _ => {},
    }
    match host {
        Some(h) => push_str(&mut s, h),
        None => push_str(&mut s, "ntk-downloaded-file"),
    }
    s
}


/// The last segment of the path of `url`, as the URL library splits it; nothing
/// when the URL does not parse or cannot have a path.
pub uninterp spec fn url_last_segment_spec(url: Seq<char>) -> Option<Seq<char>>;

/// `url::Url::parse`, then `path_segments` and `last`. It is taken as the
/// function `url_last_segment_spec` of the URL.
#[verifier::external_body]
fn url_last_segment(url: &str) -> (r: Option<String>)
    ensures
        r is Some <==> url_last_segment_spec(url@) is Some,
        r matches Some(s) ==> s@ == url_last_segment_spec(url@).unwrap(),
{
    match url::Url::parse(url) {
        Ok(u) => match u.path_segments() {
            Some(segments) => match segments.last() {
                Some(seg) => Some(seg.to_string()),
                None => None,
            },
            None => None,
        },
        Err(_) => None,
    }
}

/// The host of `url` as text, as the URL library gives it; nothing when the
/// URL does not parse or has no host.
pub uninterp spec fn url_host_spec(url: Seq<char>) -> Option<Seq<char>>;

/// `url::Url::parse`, then `host_str`. It is taken as the function
/// `url_host_spec` of the URL.
#[verifier::external_body]
fn url_host(url: &str) -> (r: Option<String>)
    ensures
        r is Some <==> url_host_spec(url@) is Some,
        r matches Some(s) ==> s@ == url_host_spec(url@).unwrap(),
{
    match url::Url::parse(url) {
        Ok(u) => match u.host_str() {
            Some(h) => Some(h.to_string()),
            None => None,
        },
        Err(_) => None,
    }
}

/// Chooses the name of a downloaded file from the response's final URL (see
/// `download_name`, with the last segment and the host of that URL).
pub fn download_filename_for(download_path: Option<String>, disposition: Option<&str>, final_url: &str) -> (name: String)
    ensures
        name@ == download_name(
            match download_path {
                Some(p) => Some(p@),
                None => None,
            },
            match disposition {
                Some(d) => Some(d@),
                None => None,
            },
            url_last_segment_spec(final_url@),
            url_host_spec(final_url@),
        ),
{
    let seg = url_last_segment(final_url);
    let host = url_host(final_url);
    let seg_ref: Option<&str> = match &seg {
        Some(x) => Some(x.as_str()),
        None => None,
    };
    let host_ref: Option<&str> = match &host {
        Some(x) => Some(x.as_str()),
        None => None,
    };
    download_filename(download_path, disposition, seg_ref, host_ref)
}


/// The line before each request of `fetch`: an empty line, then the request's
/// number (from 1) and its URL.
pub open spec fn request_line_text(hop: u8, url: Seq<char>) -> Seq<char> {
    "\nRequest #"@ + decimal(hop as nat + 1) + " to URL: "@ + url
}

/// Builds the line before request number `hop + 1` (see `request_line_text`).
pub fn request_line(hop: u8, url: &str) -> (s: String)
    ensures
        s@ == request_line_text(hop, url@),
{
    let mut s = String::new();
    push_str(&mut s, "\nRequest #");
    push_decimal(&mut s, hop as u64 + 1);
    push_str(&mut s, " to URL: ");
    push_str(&mut s, url);
    assert(s@ =~= request_line_text(hop, url@));
    s
}

/// The line that reports a redirect.
pub fn redirect_line(url: &str) -> (s: String)
    ensures
        s@ == "Redirect -> "@ + url@,
{
    let mut s = String::new();
    push_str(&mut s, "Redirect -> ");
    push_str(&mut s, url);
    assert(s@ =~= "Redirect -> "@ + url@);
    s
}

} // verus!
