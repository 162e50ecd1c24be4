//! The reply tree of the public thread: each comment's item holds its
//! author, date, body, like button and collapsed reply form, and the list of
//! the replies that answer it, nested inside it.

use vstd::prelude::*;
use crate::lang::{reply_label, Lang};
use crate::model::{CommentPublic, CommentSettings};
use crate::numbers::{push_signed_decimal, signed_decimal};
use crate::render::{
    captcha_only_in_top_level_form, comment_date, form, form_html, push_comment_date,
};
use crate::text::{contains_seq, lemma_contains_in_left, lemma_contains_in_right, lemma_contains_self};
use crate::utils::{escaped, escaped_multiline, push_escaped, push_escaped_multiline};

verus! {

/// Replies nested deeper than this stop being indented (they keep nesting in
/// the markup).
pub const MAX_DEPTH: u64 = 4;

/// Whether some comment of `cs` has id `id`.
pub open spec fn has_comment_id(cs: Seq<CommentPublic>, id: i64) -> bool {
    exists|k: int| 0 <= k < cs.len() && cs[k].id == id
}

/// Whether `c` is listed at the place `under`: among the replies to comment
/// `under`, or, for `under` none, at the top of the thread. A comment whose
/// parent is not among the shown comments is listed at the top.
pub open spec fn is_listed_under(cs: Seq<CommentPublic>, c: CommentPublic, under: Option<i64>) -> bool {
    match under {
        Some(p) => c.parent_id == Some(p),
        None => match c.parent_id {
            Some(p) => !has_comment_id(cs, p),
            None => true,
        },
    }
}

/// The start of a comment's item: its anchor, author, date and body.
pub open spec fn item_open_html(lang: Lang, c: CommentPublic) -> Seq<char> {
    "<li class=\"bc-item\" id=\"comment-"@ + signed_decimal(c.id as int)
        + "\"><div class=\"bc-meta\"><span class=\"bc-author\">"@ + escaped(c.author_name@)
        + "</span><time class=\"bc-date\">"@ + comment_date(lang, c.created_at)
        + "</time></div><div class=\"bc-body\">"@ + escaped_multiline(c.body@) + "</div>"@
}

/// The like button of a comment, showing its like count.
pub open spec fn like_form_html(c: CommentPublic, path: Seq<char>) -> Seq<char> {
    "<form class=\"bc-like\" method=\"post\" action=\"/comments/react\"><input type=\"hidden\" name=\"comment_id\" value=\""@
        + signed_decimal(c.id as int) + "\"><input type=\"hidden\" name=\"redirect\" value=\""@
        + escaped(path) + "\"><button class=\"bc-like-btn\" type=\"submit\">&#9829; <span class=\"bc-likes\">"@
        + signed_decimal(c.likes as int) + "</span></button></form>"@
}

/// The collapsed reply form of comment `id`: it answers that comment and
/// carries no captcha.
pub open spec fn reply_html(
    lang: Lang,
    post_id: i32,
    path: Seq<char>,
    settings: CommentSettings,
    id: i64,
) -> Seq<char> {
    "<details class=\"bc-reply\"><summary>"@ + reply_label(lang) + "</summary>"@ + form_html(
        post_id,
        path,
        settings,
        lang,
        Some(id),
    ) + "</details>"@
}

/// The list of replies at nesting `depth`: indented while `depth` is at most
/// `MAX_DEPTH`; nothing when there are no replies.
pub open spec fn replies_html(depth: nat, items: Seq<char>) -> Seq<char> {
    if items.len() == 0 {
        Seq::empty()
    } else if depth <= MAX_DEPTH {
        "<ol class=\"bc-replies\">"@ + items + "</ol>"@
    } else {
        "<ol class=\"bc-replies bc-replies--deep\">"@ + items + "</ol>"@
    }
}

/// The items of the comments among the first `upto` of `cs` listed at
/// `under`, in the order of `cs`, each at nesting `depth` with its replies
/// nested up to `fuel` more levels.
pub open spec fn items_html(
    cs: Seq<CommentPublic>,
    lang: Lang,
    post_id: i32,
    path: Seq<char>,
    settings: CommentSettings,
    under: Option<i64>,
    depth: nat,
    fuel: nat,
    upto: nat,
) -> Seq<char>
    decreases fuel, upto,
{
    if upto == 0 || upto > cs.len() {
        Seq::empty()
    } else {
        let c = cs[upto - 1];
        items_html(cs, lang, post_id, path, settings, under, depth, fuel, (upto - 1) as nat) + (
        if is_listed_under(cs, c, under) {
            item_html(cs, lang, post_id, path, settings, c, depth, fuel)
        } else {
            Seq::empty()
        })
    }
}

/// The item of comment `c` at nesting `depth`: the comment, its like button,
/// its reply form, and, while `fuel` lasts, its replies nested inside it.
pub open spec fn item_html(
    cs: Seq<CommentPublic>,
    lang: Lang,
    post_id: i32,
    path: Seq<char>,
    settings: CommentSettings,
    c: CommentPublic,
    depth: nat,
    fuel: nat,
) -> Seq<char>
    decreases fuel, 0nat,
{
    item_open_html(lang, c) + like_form_html(c, path) + reply_html(
        lang,
        post_id,
        path,
        settings,
        c.id,
    ) + (if fuel == 0 {
        Seq::empty()
    } else {
        replies_html(
            depth + 1,
            items_html(
                cs,
                lang,
                post_id,
                path,
                settings,
                Some(c.id),
                depth + 1,
                (fuel - 1) as nat,
                cs.len(),
            ),
        )
    }) + "</li>"@
}

fn has_comment(cs: &[CommentPublic], id: i64) -> (r: bool)
    ensures
        r == has_comment_id(cs@, id),
{
    for k in 0..cs.len()
        invariant
            forall|j: int| 0 <= j < k ==> cs@[j].id != id,
    {
        if cs[k].id == id {
            return true;
        }
    }
    false
}

fn listed_under(cs: &[CommentPublic], k: usize, under: Option<i64>) -> (r: bool)
    requires
        k < cs@.len(),
    ensures
        r == is_listed_under(cs@, cs@[k as int], under),
{
    match under {
        Some(p) => cs[k].parent_id == Some(p),
        None => match cs[k].parent_id {
            Some(p) => !has_comment(cs, p),
            None => true,
        },
    }
}

fn push_item_open(out: &mut String, lang: Lang, c: &CommentPublic)
    ensures
        final(out)@ == old(out)@ + item_open_html(lang, *c),
{
    let ghost start = out@;
    out.append("<li class=\"bc-item\" id=\"comment-");
    push_signed_decimal(out, c.id);
    out.append("\"><div class=\"bc-meta\"><span class=\"bc-author\">");
    push_escaped(out, c.author_name.as_str());
    out.append("</span><time class=\"bc-date\">");
    push_comment_date(out, lang, c.created_at);
    out.append("</time></div><div class=\"bc-body\">");
    push_escaped_multiline(out, c.body.as_str());
    out.append("</div>");
    assert(out@ =~= start + item_open_html(lang, *c));
}

fn push_like_form(out: &mut String, c: &CommentPublic, path: &str)
    ensures
        final(out)@ == old(out)@ + like_form_html(*c, path@),
{
    let ghost start = out@;
    out.append(
        "<form class=\"bc-like\" method=\"post\" action=\"/comments/react\"><input type=\"hidden\" name=\"comment_id\" value=\"",
    );
    push_signed_decimal(out, c.id);
    out.append("\"><input type=\"hidden\" name=\"redirect\" value=\"");
    push_escaped(out, path);
    out.append("\"><button class=\"bc-like-btn\" type=\"submit\">&#9829; <span class=\"bc-likes\">");
    push_signed_decimal(out, c.likes);
    out.append("</span></button></form>");
    assert(out@ =~= start + like_form_html(*c, path@));
}

fn push_reply(
    out: &mut String,
    lang: Lang,
    post_id: i32,
    path: &str,
    settings: &CommentSettings,
    id: i64,
)
    ensures
        final(out)@ == old(out)@ + reply_html(lang, post_id, path@, *settings, id),
{
    let ghost start = out@;
    out.append("<details class=\"bc-reply\"><summary>");
    out.append(lang.reply());
    out.append("</summary>");
    let f = form(post_id, path, settings, lang, Some(id));
    out.append(f.as_str());
    out.append("</details>");
    assert(out@ =~= start + reply_html(lang, post_id, path@, *settings, id));
}

fn push_replies(out: &mut String, depth: u64, items: &str)
    ensures
        final(out)@ == old(out)@ + replies_html(depth as nat, items@),
{
    let ghost start = out@;
    if items.unicode_len() > 0 {
        if depth <= MAX_DEPTH {
            out.append("<ol class=\"bc-replies\">");
        } else {
            out.append("<ol class=\"bc-replies bc-replies--deep\">");
        }
        out.append(items);
        out.append("</ol>");
    }
    assert(out@ =~= start + replies_html(depth as nat, items@));
}

/// Appends the items of the comments listed at `under`.
pub(crate) fn push_items(
    out: &mut String,
    cs: &[CommentPublic],
    lang: Lang,
    post_id: i32,
    path: &str,
    settings: &CommentSettings,
    under: Option<i64>,
    depth: u64,
    fuel: u64,
)
    requires
        depth + fuel <= cs@.len(),
    ensures
        final(out)@ == old(out)@ + items_html(
            cs@,
            lang,
            post_id,
            path@,
            *settings,
            under,
            depth as nat,
            fuel as nat,
            cs@.len(),
        ),
    decreases fuel, 1nat,
{
    let ghost start = out@;
    let n = cs.len();
    for k in 0..n
        invariant
            n == cs@.len(),
            depth + fuel <= cs@.len(),
            out@ == start + items_html(
                cs@,
                lang,
                post_id,
                path@,
                *settings,
                under,
                depth as nat,
                fuel as nat,
                k as nat,
            ),
    {
        if listed_under(cs, k, under) {
            push_item(out, cs, k, lang, post_id, path, settings, depth, fuel);
        }
        assert(out@ =~= start + items_html(
            cs@,
            lang,
            post_id,
            path@,
            *settings,
            under,
            depth as nat,
            fuel as nat,
            (k + 1) as nat,
        ));
    }
}

/// Appends the item of comment `cs[k]`.
fn push_item(
    out: &mut String,
    cs: &[CommentPublic],
    k: usize,
    lang: Lang,
    post_id: i32,
    path: &str,
    settings: &CommentSettings,
    depth: u64,
    fuel: u64,
)
    requires
        k < cs@.len(),
        depth + fuel <= cs@.len(),
    ensures
        final(out)@ == old(out)@ + item_html(
            cs@,
            lang,
            post_id,
            path@,
            *settings,
            cs@[k as int],
            depth as nat,
            fuel as nat,
        ),
    decreases fuel, 0nat,
{
    let ghost start = out@;
    let c = &cs[k];
    push_item_open(out, lang, c);
    push_like_form(out, c, path);
    push_reply(out, lang, post_id, path, settings, c.id);
    let ghost with_reply = out@;
    if fuel > 0 {
        let mut kids = String::new();
        push_items(&mut kids, cs, lang, post_id, path, settings, Some(c.id), depth + 1, fuel - 1);
        assert(kids@ =~= items_html(
            cs@,
            lang,
            post_id,
            path@,
            *settings,
            Some(c.id),
            (depth + 1) as nat,
            (fuel - 1) as nat,
            cs@.len(),
        ));
        push_replies(out, depth + 1, kids.as_str());
    }
    let ghost with_kids = out@;
    assert(with_reply =~= start + item_open_html(lang, *c) + like_form_html(*c, path@) + reply_html(
        lang,
        post_id,
        path@,
        *settings,
        c.id,
    ));
    assert(with_kids =~= with_reply + (if fuel == 0 {
        Seq::empty()
    } else {
        replies_html(
            (depth + 1) as nat,
            items_html(
                cs@,
                lang,
                post_id,
                path@,
                *settings,
                Some(c.id),
                (depth + 1) as nat,
                (fuel - 1) as nat,
                cs@.len(),
            ),
        )
    }));
    out.append("</li>");
    assert(out@ =~= start + item_html(
        cs@,
        lang,
        post_id,
        path@,
        *settings,
        cs@[k as int],
        depth as nat,
        fuel as nat,
    ));
}

// ---------------------------------------------------------------------------
// Laws of the tree
// ---------------------------------------------------------------------------

/// The items listed at `under` hold the item of every comment listed there.
pub proof fn lemma_item_in_items(
    cs: Seq<CommentPublic>,
    lang: Lang,
    post_id: i32,
    path: Seq<char>,
    settings: CommentSettings,
    under: Option<i64>,
    depth: nat,
    fuel: nat,
    upto: nat,
    k: int,
)
    requires
        0 <= k < upto <= cs.len(),
        is_listed_under(cs, cs[k], under),
    ensures
        contains_seq(
            items_html(cs, lang, post_id, path, settings, under, depth, fuel, upto),
            item_html(cs, lang, post_id, path, settings, cs[k], depth, fuel),
        ),
    decreases upto,
{
    let x = item_html(cs, lang, post_id, path, settings, cs[k], depth, fuel);
    let left = items_html(cs, lang, post_id, path, settings, under, depth, fuel, (upto - 1) as nat);
    let c = cs[upto - 1];
    let right = if is_listed_under(cs, c, under) {
        item_html(cs, lang, post_id, path, settings, c, depth, fuel)
    } else {
        Seq::empty()
    };
    if k == upto - 1 {
        lemma_contains_self(x);
        lemma_contains_in_right(left, right, x);
    } else {
        lemma_item_in_items(cs, lang, post_id, path, settings, under, depth, fuel, (upto - 1) as nat, k);
        lemma_contains_in_left(left, right, x);
    }
}

/// A reply is rendered inside the item of the comment it answers, one level
/// deeper: the item of `cs[i]` contains the item of every `cs[k]` whose
/// parent is `cs[i]`, as long as nesting has levels left (`fuel`; the thread
/// gives its top-level comments as many levels as there are comments).
pub proof fn reply_is_nested_in_its_parent(
    cs: Seq<CommentPublic>,
    lang: Lang,
    post_id: i32,
    path: Seq<char>,
    settings: CommentSettings,
    i: int,
    k: int,
    depth: nat,
    fuel: nat,
)
    requires
        0 <= i < cs.len(),
        0 <= k < cs.len(),
        cs[k].parent_id == Some(cs[i].id),
        fuel >= 1,
    ensures
        contains_seq(
            item_html(cs, lang, post_id, path, settings, cs[i], depth, fuel),
            item_html(cs, lang, post_id, path, settings, cs[k], depth + 1, (fuel - 1) as nat),
        ),
{
    let p = cs[i];
    let x = item_html(cs, lang, post_id, path, settings, cs[k], depth + 1, (fuel - 1) as nat);
    let kids = items_html(
        cs,
        lang,
        post_id,
        path,
        settings,
        Some(p.id),
        depth + 1,
        (fuel - 1) as nat,
        cs.len(),
    );
    lemma_item_in_items(
        cs,
        lang,
        post_id,
        path,
        settings,
        Some(p.id),
        depth + 1,
        (fuel - 1) as nat,
        cs.len(),
        k,
    );
    reveal_strlit("</li>");
    assert(x.len() > 0);
    assert(kids.len() > 0);
    let open = if depth + 1 <= MAX_DEPTH {
        "<ol class=\"bc-replies\">"@
    } else {
        "<ol class=\"bc-replies bc-replies--deep\">"@
    };
    let list = replies_html(depth + 1, kids);
    assert(list == open + kids + "</ol>"@);
    lemma_contains_in_right(open, kids, x);
    lemma_contains_in_left(open + kids, "</ol>"@, x);
    let head = item_open_html(lang, p) + like_form_html(p, path) + reply_html(
        lang,
        post_id,
        path,
        settings,
        p.id,
    );
    assert(item_html(cs, lang, post_id, path, settings, p, depth, fuel) == head + list + "</li>"@);
    lemma_contains_in_right(head, list, x);
    lemma_contains_in_left(head + list, "</li>"@, x);
}

/// Every comment's item holds its collapsed reply form, and that form
/// answers the comment.
pub proof fn each_comment_has_its_reply_form(
    cs: Seq<CommentPublic>,
    lang: Lang,
    post_id: i32,
    path: Seq<char>,
    settings: CommentSettings,
    c: CommentPublic,
    depth: nat,
    fuel: nat,
)
    ensures
        contains_seq(
            item_html(cs, lang, post_id, path, settings, c, depth, fuel),
            reply_html(lang, post_id, path, settings, c.id),
        ),
        contains_seq(
            reply_html(lang, post_id, path, settings, c.id),
            form_html(post_id, path, settings, lang, Some(c.id)),
        ),
{
    let r = reply_html(lang, post_id, path, settings, c.id);
    let a = item_open_html(lang, c) + like_form_html(c, path);
    let rest = item_html(cs, lang, post_id, path, settings, c, depth, fuel).subrange(
        (a + r).len() as int,
        item_html(cs, lang, post_id, path, settings, c, depth, fuel).len() as int,
    );
    assert(item_html(cs, lang, post_id, path, settings, c, depth, fuel) =~= a + r + rest);
    lemma_contains_self(r);
    lemma_contains_in_right(a, r, r);
    lemma_contains_in_left(a + r, rest, r);
    let f = form_html(post_id, path, settings, lang, Some(c.id));
    let pre = "<details class=\"bc-reply\"><summary>"@ + reply_label(lang) + "</summary>"@;
    lemma_contains_self(f);
    lemma_contains_in_right(pre, f, f);
    lemma_contains_in_left(pre + f, "</details>"@, f);
}

proof fn lemma_items_ignore_captcha(
    cs: Seq<CommentPublic>,
    lang: Lang,
    post_id: i32,
    path: Seq<char>,
    s1: CommentSettings,
    s2: CommentSettings,
    under: Option<i64>,
    depth: nat,
    fuel: nat,
    upto: nat,
)
    requires
        s1.collect_email == s2.collect_email,
    ensures
        items_html(cs, lang, post_id, path, s1, under, depth, fuel, upto) == items_html(
            cs,
            lang,
            post_id,
            path,
            s2,
            under,
            depth,
            fuel,
            upto,
        ),
    decreases fuel, upto,
{
    if upto == 0 || upto > cs.len() {
    } else {
        lemma_items_ignore_captcha(cs, lang, post_id, path, s1, s2, under, depth, fuel, (upto - 1) as nat);
        lemma_item_ignores_captcha(cs, lang, post_id, path, s1, s2, cs[upto - 1], depth, fuel);
    }
}

proof fn lemma_item_ignores_captcha(
    cs: Seq<CommentPublic>,
    lang: Lang,
    post_id: i32,
    path: Seq<char>,
    s1: CommentSettings,
    s2: CommentSettings,
    c: CommentPublic,
    depth: nat,
    fuel: nat,
)
    requires
        s1.collect_email == s2.collect_email,
    ensures
        item_html(cs, lang, post_id, path, s1, c, depth, fuel) == item_html(
            cs,
            lang,
            post_id,
            path,
            s2,
            c,
            depth,
            fuel,
        ),
    decreases fuel, 0nat,
{
    captcha_only_in_top_level_form(post_id, path, s1, s2, lang, c.id);
    if fuel > 0 {
        lemma_items_ignore_captcha(
            cs,
            lang,
            post_id,
            path,
            s1,
            s2,
            Some(c.id),
            depth + 1,
            (fuel - 1) as nat,
            cs.len(),
        );
    }
}

/// Only the top-level form carries the captcha: the comments of a thread,
/// with their reply forms, render the same whatever captcha is configured.
pub proof fn thread_items_ignore_captcha(
    cs: Seq<CommentPublic>,
    lang: Lang,
    post_id: i32,
    path: Seq<char>,
    s1: CommentSettings,
    s2: CommentSettings,
)
    requires
        s1.collect_email == s2.collect_email,
    ensures
        items_html(cs, lang, post_id, path, s1, None, 0, cs.len(), cs.len()) == items_html(
            cs,
            lang,
            post_id,
            path,
            s2,
            None,
            0,
            cs.len(),
            cs.len(),
        ),
{
    lemma_items_ignore_captcha(cs, lang, post_id, path, s1, s2, None, 0, cs.len(), cs.len());
}

} // verus!
