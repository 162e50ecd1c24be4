//! Visitor-facing requests: the `comments` render helper, the submit and
//! like forms, and the redirects that bring the visitor back to the post.

use vstd::prelude::*;
use crate::numbers::{parse_i64, parsed_signed, push_signed_decimal, signed_decimal};
use crate::text::{
    before_first, contains_seq, contains_str, has_prefix, opt_str, owned, prefix_before, push_char,
    starts_with, str_eq, trim, trimmed, chars_of,
};

verus! {

/// The envelope every inline helper of the CMS answers with.
#[derive(Debug)]
pub enum ServicePluginApiResponse<T> {
    Error(String),
    Data(T),
}

/// The page a helper renders on: its language code, if any.
#[derive(Debug)]
pub struct PageRenderInput {
    pub language: Option<String>,
}

/// The fields of the public comment form, as submitted.
#[derive(Debug)]
pub struct CommentForm {
    pub post_id: Option<String>,
    pub parent_id: Option<String>,
    pub author_name: Option<String>,
    pub author_email: Option<String>,
    pub body: Option<String>,
    pub redirect: Option<String>,
    /// Honeypot: humans never see this field, so any value means a bot.
    pub website: Option<String>,
    /// Millisecond load timestamp for the submit time-trap.
    pub ts: Option<String>,
    pub hcaptcha: Option<String>,
    pub recaptcha: Option<String>,
}

/// The fields of the like form.
#[derive(Debug)]
pub struct ReactForm {
    pub comment_id: Option<String>,
    pub redirect: Option<String>,
}

// ---------------------------------------------------------------------------
// Render helper
// ---------------------------------------------------------------------------

/// The post id passed explicitly to the helper: its first argument when that
/// is a positive integer, cast to `i32` as the CMS's post ids are.
pub open spec fn explicit_post_id_of(first_arg: Option<i64>) -> Option<i32> {
    match first_arg {
        Some(n) => if n > 0 {
            Some(n as i32)
        } else {
            None
        },
        None => None,
    }
}

/// The helper's explicit post id, from its first argument read as an integer.
pub fn explicit_post_id(first_arg: Option<i64>) -> (r: Option<i32>)
    ensures
        r == explicit_post_id_of(first_arg),
{
    match first_arg {
        Some(n) => if n > 0 {
            Some(n as i32)
        } else {
            None
        },
        None => None,
    }
}

/// The value of the first route parameter named `key`, if there is one.
pub open spec fn param_of(params: Seq<(String, String)>, key: Seq<char>) -> Option<Seq<char>>
    decreases params.len(),
{
    if params.len() == 0 {
        None
    } else if params[0].0@ == key {
        Some(params[0].1@)
    } else {
        param_of(params.drop_first(), key)
    }
}

/// How the helper finds the post whose thread it renders.
pub enum PostLookup {
    /// The post id given explicitly.
    Id(i32),
    /// The post with this slug, read from the page route.
    Slug(String),
    /// No post can be named: the helper renders nothing.
    Missing,
}

/// Whether `r` is how the helper finds its post: by the explicit id when
/// there is one, else by the route's `slug` parameter, else not at all.
pub open spec fn is_post_lookup(
    r: PostLookup,
    first_arg: Option<i64>,
    params: Seq<(String, String)>,
) -> bool {
    match explicit_post_id_of(first_arg) {
        Some(id) => r == PostLookup::Id(id),
        None => match param_of(params, "slug"@) {
            Some(slug) => r matches PostLookup::Slug(t) && t@ == slug,
            None => r is Missing,
        },
    }
}

/// Decides how the helper finds its post.
pub fn post_lookup(first_arg: Option<i64>, params: &[(String, String)]) -> (r: PostLookup)
    ensures
        is_post_lookup(r, first_arg, params@),
{
    if let Some(id) = explicit_post_id(first_arg) {
        return PostLookup::Id(id);
    }
    let mut i: usize = 0;
    assert(params@.skip(0) =~= params@);
    while i < params.len()
        invariant
            i <= params@.len(),
            explicit_post_id_of(first_arg) is None,
            param_of(params@, "slug"@) == param_of(params@.skip(i as int), "slug"@),
        decreases params@.len() - i,
    {
        assert(params@.skip(i as int)[0] == params@[i as int]);
        if str_eq(params[i].0.as_str(), "slug") {
            return PostLookup::Slug(params[i].1.clone());
        }
        assert(params@.skip(i as int).drop_first() =~= params@.skip(i + 1));
        i = i + 1;
    }
    PostLookup::Missing
}

/// The value of the first route parameter named `key`, empty when there is
/// none.
pub open spec fn param_value(params: Seq<(String, String)>, key: Seq<char>) -> Seq<char>
    decreases params.len(),
{
    if params.len() == 0 {
        Seq::empty()
    } else if params[0].0@ == key {
        params[0].1@
    } else {
        param_value(params.drop_first(), key)
    }
}

/// `s` cut at every `sep` (`str::split`): always at least one piece.
pub open spec fn split_on(s: Seq<char>, sep: char) -> Seq<Seq<char>>
    decreases s.len(),
{
    if s.len() == 0 {
        seq![Seq::empty()]
    } else {
        let pieces = split_on(s.drop_last(), sep);
        if s.last() == sep {
            pieces.push(Seq::empty())
        } else {
            pieces.update(pieces.len() - 1, pieces.last().push(s.last()))
        }
    }
}

/// The pieces joined with `sep` between them (`[..].join`).
pub open spec fn join_with(pieces: Seq<Seq<char>>, sep: char) -> Seq<char>
    decreases pieces.len(),
{
    if pieces.len() == 0 {
        Seq::empty()
    } else if pieces.len() == 1 {
        pieces[0]
    } else {
        join_with(pieces.drop_last(), sep).push(sep) + pieces.last()
    }
}

/// A route segment with a `:name` placeholder replaced by the parameter's
/// value; other segments stay as they are.
pub open spec fn resolved_segment(seg: Seq<char>, params: Seq<(String, String)>) -> Seq<char> {
    if seg.len() > 0 && seg[0] == ':' {
        param_value(params, seg.drop_first())
    } else {
        seg
    }
}

/// The concrete page path of a route pattern (`/blog/:slug` → `/blog/x`);
/// `/` when that comes out empty.
pub open spec fn resolved_path(route: Seq<char>, params: Seq<(String, String)>) -> Seq<char> {
    let p = join_with(
        split_on(route, '/').map_values(|seg: Seq<char>| resolved_segment(seg, params)),
        '/',
    );
    if p.len() == 0 {
        seq!['/']
    } else {
        p
    }
}

fn lookup_param(params: &[(String, String)], key: &str) -> (r: String)
    ensures
        r@ == param_value(params@, key@),
{
    let mut i: usize = 0;
    assert(params@.skip(0) =~= params@);
    while i < params.len()
        invariant
            i <= params@.len(),
            param_value(params@, key@) == param_value(params@.skip(i as int), key@),
        decreases params@.len() - i,
    {
        assert(params@.skip(i as int)[0] == params@[i as int]);
        if str_eq(params[i].0.as_str(), key) {
            return params[i].1.clone();
        }
        assert(params@.skip(i as int).drop_first() =~= params@.skip(i + 1));
        i = i + 1;
    }
    String::new()
}

fn resolve_segment(seg: &Vec<char>, params: &[(String, String)]) -> (r: String)
    ensures
        r@ == resolved_segment(seg@, params@),
{
    if seg.len() > 0 && seg[0] == ':' {
        let key = crate::text::string_of_range(seg.as_slice(), 1, seg.len());
        assert(key@ =~= seg@.drop_first());
        lookup_param(params, key.as_str())
    } else {
        crate::text::string_of(seg.as_slice())
    }
}

proof fn lemma_join_step(pieces: Seq<Seq<char>>, i: int, sep: char)
    requires
        1 <= i < pieces.len(),
    ensures
        join_with(pieces.take(i + 1), sep) == join_with(pieces.take(i), sep).push(sep) + pieces[i],
{
    assert(pieces.take(i + 1).drop_last() =~= pieces.take(i));
}

/// Substitutes the `:param` segments of a route pattern with the parameter
/// values, so the redirect target is the concrete page URL.
pub fn resolve_path(route: &str, params: &[(String, String)]) -> (r: String)
    ensures
        r@ == resolved_path(route@, params@),
{
    let x = chars_of(route);
    let ghost f = |seg: Seq<char>| resolved_segment(seg, params@);
    let mut out = String::new();
    let mut cur: Vec<char> = Vec::new();
    let mut done: usize = 0;
    for i in 0..x.len()
        invariant
            x@ == route@,
            f == (|seg: Seq<char>| resolved_segment(seg, params@)),
            done <= i,
            done + 1 == split_on(route@.take(i as int), '/').len(),
            cur@ == split_on(route@.take(i as int), '/').last(),
            out@ == join_with(
                split_on(route@.take(i as int), '/').map_values(f).take(done as int),
                '/',
            ),
    {
        let ghost segs = split_on(route@.take(i as int), '/');
        assert(route@.take(i + 1).drop_last() =~= route@.take(i as int));
        assert(route@.take(i + 1).last() == x@[i as int]);
        if x[i] == '/' {
            let r = resolve_segment(&cur, params);
            let ghost m = segs.map_values(f);
            let ghost segs2 = split_on(route@.take(i + 1), '/');
            assert(segs2 == segs.push(Seq::empty()));
            assert(segs2.map_values(f).take(done + 1) =~= m.take(done + 1));
            if done == 0 {
                assert(m.take(1) =~= seq![m[0]]);
                out.append(r.as_str());
            } else {
                proof {
                    lemma_join_step(m, done as int, '/');
                }
                push_char(&mut out, '/');
                out.append(r.as_str());
            }
            assert(out@ =~= join_with(m.take(done + 1), '/'));
            cur = Vec::new();
            assert(cur@ =~= segs2.last());
            done = done + 1;
        } else {
            let ghost segs2 = split_on(route@.take(i + 1), '/');
            assert(segs2 == segs.update(segs.len() - 1, segs.last().push(x@[i as int])));
            assert(segs2.map_values(f).take(done as int) =~= segs.map_values(f).take(done as int));
            cur.push(x[i]);
        }
    }
    assert(route@.take(x.len() as int) =~= route@);
    let ghost segs = split_on(route@, '/');
    let ghost m = segs.map_values(f);
    let r = resolve_segment(&cur, params);
    if done == 0 {
        assert(m.take(1) =~= seq![m[0]]);
        out.append(r.as_str());
    } else {
        proof {
            lemma_join_step(m, done as int, '/');
        }
        push_char(&mut out, '/');
        out.append(r.as_str());
    }
    assert(m.take(done + 1) =~= m);
    if out.as_str().unicode_len() == 0 {
        proof {
            reveal_strlit("/");
        }
        owned("/")
    } else {
        out
    }
}

/// Joining the pieces of a split gives back the string.
pub proof fn split_then_join(s: Seq<char>, sep: char)
    ensures
        join_with(split_on(s, sep), sep) == s,
        split_on(s, sep).len() >= 1,
    decreases s.len(),
{
    if s.len() > 0 {
        let p = s.drop_last();
        split_then_join(p, sep);
        let pieces = split_on(p, sep);
        let c = s.last();
        if c == sep {
            let q = pieces.push(Seq::empty());
            assert(q.drop_last() =~= pieces);
            assert(join_with(q, sep) =~= p.push(sep));
        } else {
            let q = pieces.update(pieces.len() - 1, pieces.last().push(c));
            if pieces.len() == 1 {
                assert(join_with(q, sep) =~= p.push(c));
            } else {
                assert(q.drop_last() =~= pieces.drop_last());
                assert(join_with(q, sep) =~= p.push(c));
            }
        }
        assert(p.push(c) =~= s);
    }
}

/// A route without placeholders is its own page path: resolving changes
/// nothing when no segment starts with `:` (and the route is not empty).
pub proof fn plain_route_resolves_to_itself(route: Seq<char>, params: Seq<(String, String)>)
    requires
        route.len() > 0,
        forall|i: int|
            0 <= i < split_on(route, '/').len() ==> !has_prefix(
                #[trigger] split_on(route, '/')[i],
                seq![':'],
            ),
    ensures
        resolved_path(route, params) == route,
{
    split_then_join(route, '/');
    let pieces = split_on(route, '/');
    let f = |seg: Seq<char>| resolved_segment(seg, params);
    assert forall|i: int| 0 <= i < pieces.len() implies #[trigger] f(pieces[i]) == pieces[i] by {
        let seg = pieces[i];
        if seg.len() > 0 && seg[0] == ':' {
            assert(seg.subrange(0, 1) =~= seq![':']);
        }
    }
    assert(pieces.map_values(f) =~= pieces);
}

// ---------------------------------------------------------------------------
// Redirects
// ---------------------------------------------------------------------------

/// Whether a redirect target stays on this site: a path starting with a
/// single `/` that is not followed by another `/` or by a `\` (browsers
/// read `/\host` like `//host`, a link to another site).
pub open spec fn is_local_path(r: Seq<char>) -> bool {
    r.len() > 0 && r[0] == '/' && !(r.len() > 1 && (r[1] == '/' || r[1] == '\\'))
}

/// The redirect target a form asks for when it is a same-site path, else
/// `/` (no open redirect).
pub open spec fn sanitized_redirect(redirect: Option<Seq<char>>) -> Seq<char> {
    match redirect {
        Some(r) => if is_local_path(r) {
            r
        } else {
            seq!['/']
        },
        None => seq!['/'],
    }
}

/// Only allows same-site relative paths as the redirect target.
pub fn sanitize_redirect(redirect: Option<&str>) -> (r: String)
    ensures
        r@ == sanitized_redirect(opt_str(redirect)),
{
    match redirect {
        Some(r) => {
            let x = chars_of(r);
            if x.len() > 0 && x[0] == '/' && !(x.len() > 1 && (x[1] == '/' || x[1] == '\\')) {
                owned(r)
            } else {
                let s = owned("/");
                proof {
                    reveal_strlit("/");
                }
                s
            }
        },
        None => {
            let s = owned("/");
            proof {
                reveal_strlit("/");
            }
            s
        },
    }
}

/// Every redirect target the forms can produce stays on this site: it
/// starts with `/`, and neither with `//` nor with `/\`.
pub proof fn sanitized_redirect_is_local(redirect: Option<Seq<char>>)
    ensures
        is_local_path(sanitized_redirect(redirect)),
        sanitized_redirect(redirect)[0] == '/',
        sanitized_redirect(redirect).len() > 1 ==> sanitized_redirect(redirect)[1] != '/'
            && sanitized_redirect(redirect)[1] != '\\',
{
}

/// Where a submission sends the visitor back to: the page path without its
/// query, with the status flag for the banner and the `#comments` anchor.
pub open spec fn redirect_back_target(path: Seq<char>, flag: Seq<char>) -> Seq<char> {
    before_first(path, '?') + "?comment="@ + flag + "#comments"@
}

/// The location a submission redirects to with a status flag.
pub fn redirect_back(path: &str, flag: &str) -> (r: String)
    ensures
        r@ == redirect_back_target(path@, flag@),
{
    let mut out = prefix_before(path, '?');
    out.append("?comment=");
    out.append(flag);
    out.append("#comments");
    out
}

/// The page part of a path (`before_first(path, '?')`) never holds a query
/// of its own, so the flag is the only query the redirect carries.
pub proof fn redirect_base_has_no_query(path: Seq<char>)
    ensures
        !before_first(path, '?').contains('?'),
    decreases path.len(),
{
    if path.len() > 0 && path[0] != '?' {
        redirect_base_has_no_query(path.drop_first());
        let b = before_first(path, '?');
        assert(b == seq![path[0]] + before_first(path.drop_first(), '?'));
        if b.contains('?') {
            let k = choose|k: int| 0 <= k < b.len() && b[k] == '?';
            assert(k > 0);
            assert(before_first(path.drop_first(), '?')[k - 1] == '?');
        }
    }
}

// ---------------------------------------------------------------------------
// Likes
// ---------------------------------------------------------------------------

/// Whether the client asked for JSON (`Accept` mentions `application/json`).
pub fn wants_json(accept: Option<&str>) -> (r: bool)
    ensures
        r == match accept {
            Some(a) => contains_seq(a@, "application/json"@),
            None => false,
        },
{
    match accept {
        Some(a) => contains_str(a, "application/json"),
        None => false,
    }
}

/// The id a like form names: its `comment_id` trimmed and read as an `i64`.
pub open spec fn liked_comment_id(comment_id: Option<Seq<char>>) -> Option<i64> {
    match comment_id {
        Some(s) => match parsed_signed(trimmed(s), i64::MIN as int, i64::MAX as int) {
            Some(v) => Some(v as i64),
            None => None,
        },
        None => None,
    }
}

/// The comment a like form names.
pub fn parse_comment_id(comment_id: Option<&str>) -> (r: Option<i64>)
    ensures
        r == liked_comment_id(opt_str(comment_id)),
{
    match comment_id {
        Some(s) => {
            let t = trim(s);
            parse_i64(t.as_str())
        },
        None => None,
    }
}

/// The key likes are deduplicated by: the client address, or `anon` when it
/// is unknown, so anonymous likes collapse together.
pub fn reaction_key(ip: Option<String>) -> (r: String)
    ensures
        r@ == match ip {
            Some(i) => i@,
            None => "anon"@,
        },
{
    match ip {
        Some(i) => i,
        None => owned("anon"),
    }
}

/// Where a plain like form returns to: the page without its query, at the
/// liked comment's anchor.
pub open spec fn comment_anchor_target(redirect: Seq<char>, comment_id: i64) -> Seq<char> {
    before_first(redirect, '?') + "#comment-"@ + signed_decimal(comment_id as int)
}

/// The location a plain like form redirects to.
pub fn comment_anchor(redirect: &str, comment_id: i64) -> (r: String)
    ensures
        r@ == comment_anchor_target(redirect@, comment_id),
{
    let mut out = prefix_before(redirect, '?');
    out.append("#comment-");
    push_signed_decimal(&mut out, comment_id);
    out
}

/// The answer to a like.
#[derive(Debug)]
pub enum ReactReply {
    /// JSON `400 {"error": "bad id"}`: the form named no comment.
    BadId,
    /// JSON `200 {"likes": n}`: the comment's new like count.
    Likes(i64),
    /// JSON `404 {"error": "not found"}`: no approved comment has the id.
    NotFound,
    /// A redirect to this location.
    Redirect(String),
}

/// The answer to a like: JSON for clients that asked for it, else a
/// redirect; to the page itself when the form named no comment, to the
/// comment's anchor otherwise. `likes` is the new count, `None` when the
/// comment is not an approved one.
pub open spec fn react_reply_is(
    r: ReactReply,
    wants_json: bool,
    redirect: Seq<char>,
    comment_id: Option<i64>,
    likes: Option<i64>,
) -> bool {
    match comment_id {
        None => if wants_json {
            r is BadId
        } else {
            r matches ReactReply::Redirect(to) && to@ == redirect
        },
        Some(id) => if wants_json {
            match likes {
                Some(n) => r == ReactReply::Likes(n),
                None => r is NotFound,
            }
        } else {
            r matches ReactReply::Redirect(to) && to@ == comment_anchor_target(redirect, id)
        },
    }
}

/// Decides the answer to a like.
pub fn react_reply(wants_json: bool, redirect: &str, comment_id: Option<i64>, likes: Option<i64>) -> (r:
    ReactReply)
    ensures
        react_reply_is(r, wants_json, redirect@, comment_id, likes),
{
    match comment_id {
        None => if wants_json {
            ReactReply::BadId
        } else {
            ReactReply::Redirect(owned(redirect))
        },
        Some(id) => if wants_json {
            match likes {
                Some(n) => ReactReply::Likes(n),
                None => ReactReply::NotFound,
            }
        } else {
            ReactReply::Redirect(comment_anchor(redirect, id))
        },
    }
}

// ---------------------------------------------------------------------------
// Site address
// ---------------------------------------------------------------------------

/// The text of a request header: `None` when absent, `Some(None)` when
/// present but not visible ASCII, else `Some(Some(text))`.
pub open spec fn header_text(h: Option<Option<&str>>) -> Option<Option<Seq<char>>> {
    match h {
        Some(Some(t)) => Some(Some(t@)),
        Some(None) => Some(None),
        None => None,
    }
}

/// The site URL Akismet keys on: `X-Forwarded-Host`, or `Host` when that is
/// absent, trimmed; `None` when it is unreadable, empty or a local address.
/// The scheme is `X-Forwarded-Proto` when readable, else `https`.
pub open spec fn site_url_of(
    forwarded_host: Option<Option<Seq<char>>>,
    host: Option<Option<Seq<char>>>,
    proto: Option<Seq<char>>,
) -> Option<Seq<char>> {
    let chosen = if forwarded_host is Some {
        forwarded_host
    } else {
        host
    };
    match chosen {
        Some(Some(raw)) => {
            let h = trimmed(raw);
            if h.len() == 0 || has_prefix(h, "localhost"@) || has_prefix(h, "127.0.0.1"@) {
                None
            } else {
                let scheme = match proto {
                    Some(p) => p,
                    None => "https"@,
                };
                Some(scheme + "://"@ + h)
            }
        },
        _ => None,
    }
}

/// Builds the site URL from the forwarded host headers.
pub fn site_url(
    forwarded_host: Option<Option<&str>>,
    host: Option<Option<&str>>,
    proto: Option<&str>,
) -> (r: Option<String>)
    ensures
        crate::text::opt_string(r) == site_url_of(
            header_text(forwarded_host),
            header_text(host),
            opt_str(proto),
        ),
{
    let chosen = if forwarded_host.is_some() {
        forwarded_host
    } else {
        host
    };
    let raw = match chosen {
        Some(Some(t)) => t,
        _ => {
            return None;
        },
    };
    let h = trim(raw);
    if h.as_str().unicode_len() == 0 || starts_with(h.as_str(), "localhost") || starts_with(
        h.as_str(),
        "127.0.0.1",
    ) {
        return None;
    }
    let mut out = match proto {
        Some(p) => owned(p),
        None => owned("https"),
    };
    out.append("://");
    out.append(h.as_str());
    Some(out)
}

} // verus!
