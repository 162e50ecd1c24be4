//! HTML of the public comment thread: the replies nested under the
//! comments they answer, a like button and a reply form on every comment,
//! and the submit form, all in the page's language. Everything a visitor
//! supplied is escaped here, so stored comment text can never inject markup:
//! this module is the page's XSS boundary.

use vstd::prelude::*;
use crate::lang::{
    banner_text, be_first_text, comment_label, date_pattern, email_label, heading_text,
    name_label, submit_label, write_comment_text, Lang,
};
use crate::model::{CommentPublic, CommentSettings};
use crate::numbers::{push_signed_decimal, signed_decimal};
use crate::replies::{
    is_listed_under, item_html, items_html, lemma_item_in_items, push_items,
    thread_items_ignore_captcha,
};
use crate::text::{
    contains_seq, lemma_contains_in_left, lemma_contains_in_right, lemma_contains_self,
    opt_str,
    opt_string, str_eq,
};
use crate::utils::{escaped, push_escaped};

verus! {

// ---------------------------------------------------------------------------
// Dates
// ---------------------------------------------------------------------------

/// What chrono prints for the UTC instant `secs` seconds after the Unix
/// epoch with the strftime pattern `fmt`; `None` when that instant is outside
/// chrono's range.
pub uninterp spec fn utc_formatted(secs: int, fmt: Seq<char>) -> Option<Seq<char>>;

/// `chrono::DateTime::<Utc>::from_timestamp(secs, 0)` formatted with `fmt`
/// (`DateTime::format`, then `to_string`). The result is named, not stated:
/// it is `None` exactly when chrono cannot represent the instant. Only the
/// two date patterns of the page's languages are admitted, which chrono
/// formats without error.
#[verifier::external_body]
pub(crate) fn format_utc(secs: i64, fmt: &str) -> (r: Option<String>)
    requires
        fmt@ == "%d.%m.%Y %H:%M"@ || fmt@ == "%b %-d, %Y %H:%M"@,
    ensures
        opt_string(r) == utc_formatted(secs as int, fmt@),
{
    match chrono::DateTime::<chrono::Utc>::from_timestamp(secs, 0) {
        Some(t) => Some(t.format(fmt).to_string()),
        None => None,
    }
}

/// The date shown for a comment in `lang`: chrono's rendering of the UTC
/// instant with the language's pattern, or nothing when the instant cannot
/// be represented.
pub open spec fn comment_date(lang: Lang, secs: i64) -> Seq<char> {
    match utc_formatted(secs as int, date_pattern(lang)) {
        Some(d) => d,
        None => Seq::empty(),
    }
}

/// Appends the date of a comment.
pub(crate) fn push_comment_date(out: &mut String, lang: Lang, secs: i64)
    ensures
        final(out)@ == old(out)@ + comment_date(lang, secs),
{
    match format_utc(secs, lang.date_fmt()) {
        Some(d) => out.append(d.as_str()),
        None => {
            assert(old(out)@ + Seq::<char>::empty() =~= old(out)@);
        },
    }
}

// ---------------------------------------------------------------------------
// Banner and captcha
// ---------------------------------------------------------------------------

/// The status banner for a submit flag (`received`, `posted`, `captcha`,
/// `slow_down`, `error`) in `lang`; `None` for any other flag.
pub open spec fn status_banner_html(lang: Lang, flag: Seq<char>) -> Option<Seq<char>> {
    match banner_text(lang, flag) {
        Some((kind, msg)) => Some(
            "<p class=\"bc-banner bc-banner--"@ + kind + "\">"@ + msg + "</p>"@,
        ),
        None => None,
    }
}

/// The status banner for a flag.
pub fn status_banner(lang: Lang, flag: &str) -> (r: Option<String>)
    ensures
        opt_string(r) == status_banner_html(lang, flag@),
{
    match lang.banner(flag) {
        Some((kind, msg)) => {
            let mut out = String::new();
            out.append("<p class=\"bc-banner bc-banner--");
            out.append(kind);
            out.append("\">");
            out.append(msg);
            out.append("</p>");
            Some(out)
        },
        None => None,
    }
}

/// The captcha widget for the configured provider: present only when the
/// provider is hCaptcha or reCAPTCHA and a non-empty site key is set.
pub open spec fn captcha_widget_html(provider: Seq<char>, site_key: Option<Seq<char>>) -> Seq<char> {
    match site_key {
        Some(k) => if k.len() == 0 {
            Seq::empty()
        } else if provider == "hcaptcha"@ {
            "<div class=\"h-captcha\" data-sitekey=\""@ + escaped(k)
                + "\"></div><script src=\"https://hcaptcha.com/1/api.js\" async defer></script>"@
        } else if provider == "recaptcha"@ {
            "<div class=\"g-recaptcha\" data-sitekey=\""@ + escaped(k)
                + "\"></div><script src=\"https://www.google.com/recaptcha/api.js\" async defer></script>"@
        } else {
            Seq::empty()
        },
        None => Seq::empty(),
    }
}

/// The captcha widget for the settings.
pub fn captcha_widget(settings: &CommentSettings) -> (r: String)
    ensures
        r@ == captcha_widget_html(settings.captcha_provider@, opt_string(settings.captcha_site_key)),
{
    let mut out = String::new();
    let site_key = match &settings.captcha_site_key {
        Some(k) => if k.as_str().unicode_len() == 0 {
            return out;
        } else {
            k.as_str()
        },
        None => {
            return out;
        },
    };
    let provider = settings.captcha_provider.as_str();
    if str_eq(provider, "hcaptcha") {
        out.append("<div class=\"h-captcha\" data-sitekey=\"");
        push_escaped(&mut out, site_key);
        out.append("\"></div><script src=\"https://hcaptcha.com/1/api.js\" async defer></script>");
    } else if str_eq(provider, "recaptcha") {
        out.append("<div class=\"g-recaptcha\" data-sitekey=\"");
        push_escaped(&mut out, site_key);
        out.append(
            "\"></div><script src=\"https://www.google.com/recaptcha/api.js\" async defer></script>",
        );
    }
    out
}

// ---------------------------------------------------------------------------
// Forms
// ---------------------------------------------------------------------------

/// What tells the fields of a reply form apart from those of the other
/// forms on the page: `-<id>` of the comment it answers, nothing for the
/// top-level form.
pub open spec fn id_suffix(parent: Option<i64>) -> Seq<char> {
    match parent {
        Some(id) => "-"@ + signed_decimal(id as int),
        None => Seq::empty(),
    }
}

/// The hidden part of a form: target post, the comment answered (reply
/// forms only), redirect target, load stamp and the honeypot field.
pub open spec fn form_head_html(post_id: i32, parent: Option<i64>, path: Seq<char>) -> Seq<char> {
    "<form class=\"bc-form\" method=\"post\" action=\"/comments/submit\">"@
        + "<input type=\"hidden\" name=\"post_id\" value=\""@ + signed_decimal(post_id as int)
        + "\">"@ + match parent {
        Some(id) => "<input type=\"hidden\" name=\"parent_id\" value=\""@ + signed_decimal(
            id as int,
        ) + "\">"@,
        None => Seq::empty(),
    } + "<input type=\"hidden\" name=\"redirect\" value=\""@ + escaped(path) + "\">"@
        + "<input type=\"hidden\" name=\"ts\" class=\"bc-ts\" value=\"\">"@
        + "<div class=\"bc-hp\" aria-hidden=\"true\"><label>Website<input type=\"text\" name=\"website\" tabindex=\"-1\" autocomplete=\"off\"></label></div>"@
}

/// The name field.
pub open spec fn name_field_html(lang: Lang, sfx: Seq<char>) -> Seq<char> {
    "<div class=\"bc-field\"><label for=\"bc-name"@ + sfx + "\">"@ + name_label(lang)
        + "</label><input id=\"bc-name"@ + sfx
        + "\" name=\"author_name\" type=\"text\" required maxlength=\"120\"></div>"@
}

/// The email field, shown only when the operator collects email.
pub open spec fn email_field_html(lang: Lang, sfx: Seq<char>) -> Seq<char> {
    "<div class=\"bc-field\"><label for=\"bc-email"@ + sfx + "\">"@ + email_label(lang)
        + "</label><input id=\"bc-email"@ + sfx
        + "\" name=\"author_email\" type=\"email\" maxlength=\"254\"></div>"@
}

/// The comment field.
pub open spec fn body_field_html(lang: Lang, sfx: Seq<char>) -> Seq<char> {
    "<div class=\"bc-field\"><label for=\"bc-body"@ + sfx + "\">"@ + comment_label(lang)
        + "</label><textarea id=\"bc-body"@ + sfx
        + "\" name=\"body\" required rows=\"4\" maxlength=\"5000\"></textarea></div>"@
}

/// The submit button and the end of the form.
pub open spec fn form_tail_html(lang: Lang) -> Seq<char> {
    "<button class=\"bc-submit\" type=\"submit\">"@ + submit_label(lang) + "</button></form>"@
}

/// A comment form: the top-level one (`parent` none) or the reply form of
/// comment `parent`. Only the top-level form carries the captcha widget.
#[verifier::opaque]
pub open spec fn form_html(
    post_id: i32,
    path: Seq<char>,
    settings: CommentSettings,
    lang: Lang,
    parent: Option<i64>,
) -> Seq<char> {
    let sfx = id_suffix(parent);
    form_head_html(post_id, parent, path) + name_field_html(lang, sfx) + (if settings.collect_email {
        email_field_html(lang, sfx)
    } else {
        Seq::empty()
    }) + body_field_html(lang, sfx) + (if parent is None {
        captcha_widget_html(settings.captcha_provider@, opt_string(settings.captcha_site_key))
    } else {
        Seq::empty()
    }) + form_tail_html(lang)
}

fn push_form_head(out: &mut String, post_id: i32, parent: Option<i64>, path: &str)
    ensures
        final(out)@ == old(out)@ + form_head_html(post_id, parent, path@),
{
    let ghost start = out@;
    out.append("<form class=\"bc-form\" method=\"post\" action=\"/comments/submit\">");
    out.append("<input type=\"hidden\" name=\"post_id\" value=\"");
    push_signed_decimal(out, post_id as i64);
    out.append("\">");
    let ghost with_post = out@;
    if let Some(id) = parent {
        out.append("<input type=\"hidden\" name=\"parent_id\" value=\"");
        push_signed_decimal(out, id);
        out.append("\">");
    }
    let ghost with_parent = out@;
    out.append("<input type=\"hidden\" name=\"redirect\" value=\"");
    push_escaped(out, path);
    out.append("\">");
    out.append("<input type=\"hidden\" name=\"ts\" class=\"bc-ts\" value=\"\">");
    // Honeypot: hidden from humans, tempting to bots. A filled value = spam.
    out.append(
        "<div class=\"bc-hp\" aria-hidden=\"true\"><label>Website<input type=\"text\" name=\"website\" tabindex=\"-1\" autocomplete=\"off\"></label></div>",
    );
    assert(with_parent =~= with_post + match parent {
        Some(id) => "<input type=\"hidden\" name=\"parent_id\" value=\""@ + signed_decimal(
            id as int,
        ) + "\">"@,
        None => Seq::empty(),
    });
    assert(out@ =~= start + form_head_html(post_id, parent, path@));
}

fn push_name_field(out: &mut String, lang: Lang, sfx: &str)
    ensures
        final(out)@ == old(out)@ + name_field_html(lang, sfx@),
{
    let ghost start = out@;
    out.append("<div class=\"bc-field\"><label for=\"bc-name");
    out.append(sfx);
    out.append("\">");
    out.append(lang.name());
    out.append("</label><input id=\"bc-name");
    out.append(sfx);
    out.append("\" name=\"author_name\" type=\"text\" required maxlength=\"120\"></div>");
    assert(out@ =~= start + name_field_html(lang, sfx@));
}

fn push_email_field(out: &mut String, lang: Lang, sfx: &str)
    ensures
        final(out)@ == old(out)@ + email_field_html(lang, sfx@),
{
    let ghost start = out@;
    out.append("<div class=\"bc-field\"><label for=\"bc-email");
    out.append(sfx);
    out.append("\">");
    out.append(lang.email());
    out.append("</label><input id=\"bc-email");
    out.append(sfx);
    out.append("\" name=\"author_email\" type=\"email\" maxlength=\"254\"></div>");
    assert(out@ =~= start + email_field_html(lang, sfx@));
}

fn push_body_field(out: &mut String, lang: Lang, sfx: &str)
    ensures
        final(out)@ == old(out)@ + body_field_html(lang, sfx@),
{
    let ghost start = out@;
    out.append("<div class=\"bc-field\"><label for=\"bc-body");
    out.append(sfx);
    out.append("\">");
    out.append(lang.comment());
    out.append("</label><textarea id=\"bc-body");
    out.append(sfx);
    out.append("\" name=\"body\" required rows=\"4\" maxlength=\"5000\"></textarea></div>");
    assert(out@ =~= start + body_field_html(lang, sfx@));
}

/// A comment form.
pub fn form(
    post_id: i32,
    path: &str,
    settings: &CommentSettings,
    lang: Lang,
    parent: Option<i64>,
) -> (r: String)
    ensures
        r@ == form_html(post_id, path@, *settings, lang, parent),
{
    let mut sfx = String::new();
    if let Some(id) = parent {
        sfx.append("-");
        push_signed_decimal(&mut sfx, id);
    }
    assert(sfx@ =~= id_suffix(parent));
    let mut f = String::new();
    push_form_head(&mut f, post_id, parent, path);
    let ghost head = f@;
    push_name_field(&mut f, lang, sfx.as_str());
    let ghost with_name = f@;
    if settings.collect_email {
        push_email_field(&mut f, lang, sfx.as_str());
    }
    let ghost with_email = f@;
    assert(with_email =~= with_name + (if settings.collect_email {
        email_field_html(lang, sfx@)
    } else {
        Seq::empty()
    }));
    push_body_field(&mut f, lang, sfx.as_str());
    let ghost with_body = f@;
    if parent.is_none() {
        let w = captcha_widget(settings);
        f.append(w.as_str());
    }
    let ghost with_captcha = f@;
    assert(with_captcha =~= with_body + (if parent is None {
        captcha_widget_html(settings.captcha_provider@, opt_string(settings.captcha_site_key))
    } else {
        Seq::empty()
    }));
    f.append("<button class=\"bc-submit\" type=\"submit\">");
    f.append(lang.submit());
    f.append("</button></form>");
    assert(f@ =~= with_captcha + form_tail_html(lang));
    assert(head =~= form_head_html(post_id, parent, path@));
    reveal(form_html);
    assert(f@ =~= form_html(post_id, path@, *settings, lang, parent));
    f
}

/// The hidden field by which a reply form names the comment it answers.
pub open spec fn parent_field_html(id: i64) -> Seq<char> {
    "<input type=\"hidden\" name=\"parent_id\" value=\""@ + signed_decimal(id as int) + "\">"@
}

/// A reply form answers its comment: it carries that comment's id in the
/// hidden `parent_id` field.
pub proof fn reply_form_names_its_parent(
    post_id: i32,
    path: Seq<char>,
    settings: CommentSettings,
    lang: Lang,
    id: i64,
)
    ensures
        contains_seq(form_html(post_id, path, settings, lang, Some(id)), parent_field_html(id)),
{
    reveal(form_html);
    let pre = "<form class=\"bc-form\" method=\"post\" action=\"/comments/submit\">"@
        + "<input type=\"hidden\" name=\"post_id\" value=\""@ + signed_decimal(post_id as int)
        + "\">"@;
    let rest = "<input type=\"hidden\" name=\"redirect\" value=\""@ + escaped(path) + "\">"@
        + "<input type=\"hidden\" name=\"ts\" class=\"bc-ts\" value=\"\">"@
        + "<div class=\"bc-hp\" aria-hidden=\"true\"><label>Website<input type=\"text\" name=\"website\" tabindex=\"-1\" autocomplete=\"off\"></label></div>"@;
    let head = form_head_html(post_id, Some(id), path);
    assert(head =~= pre + parent_field_html(id) + rest);
    lemma_contains_self(parent_field_html(id));
    lemma_contains_in_right(pre, parent_field_html(id), parent_field_html(id));
    lemma_contains_in_left(pre + parent_field_html(id), rest, parent_field_html(id));
    let f = form_html(post_id, path, settings, lang, Some(id));
    let tail = f.subrange(head.len() as int, f.len() as int);
    assert(f =~= head + tail);
    lemma_contains_in_left(head, tail, parent_field_html(id));
}

/// Only the top-level form carries the captcha: a reply form is the same
/// whatever captcha is configured, while the top-level form holds the
/// configured widget.
pub proof fn captcha_only_in_top_level_form(
    post_id: i32,
    path: Seq<char>,
    s1: CommentSettings,
    s2: CommentSettings,
    lang: Lang,
    id: i64,
)
    requires
        s1.collect_email == s2.collect_email,
    ensures
        form_html(post_id, path, s1, lang, Some(id)) == form_html(post_id, path, s2, lang, Some(id)),
        contains_seq(
            form_html(post_id, path, s1, lang, None),
            captcha_widget_html(s1.captcha_provider@, opt_string(s1.captcha_site_key)),
        ),
{
    reveal(form_html);
    let w = captcha_widget_html(s1.captcha_provider@, opt_string(s1.captcha_site_key));
    let sfx = id_suffix(None);
    let before = form_head_html(post_id, None, path) + name_field_html(lang, sfx) + (
    if s1.collect_email {
        email_field_html(lang, sfx)
    } else {
        Seq::empty()
    }) + body_field_html(lang, sfx);
    lemma_contains_self(w);
    lemma_contains_in_right(before, w, w);
    lemma_contains_in_left(before + w, form_tail_html(lang), w);
}

// ---------------------------------------------------------------------------
// The section
// ---------------------------------------------------------------------------

/// The heading with the number of comments.
pub open spec fn thread_heading_html(lang: Lang, count: nat) -> Seq<char> {
    "<h2 class=\"bc-heading\">"@ + heading_text(lang, count) + "</h2>"@
}

/// The banner for an optional flag; nothing for no flag or an unknown one.
pub open spec fn banner_part_html(lang: Lang, flag: Option<Seq<char>>) -> Seq<char> {
    match flag {
        Some(f) => match status_banner_html(lang, f) {
            Some(b) => b,
            None => Seq::empty(),
        },
        None => Seq::empty(),
    }
}

/// The thread: a hint when there are no comments, else the top-level
/// comments with their replies nested inside them.
pub open spec fn thread_body_html(
    lang: Lang,
    post_id: i32,
    path: Seq<char>,
    cs: Seq<CommentPublic>,
    settings: CommentSettings,
) -> Seq<char> {
    if cs.len() == 0 {
        "<p class=\"bc-empty\">"@ + be_first_text(lang) + "</p>"@
    } else {
        "<ol class=\"bc-list\">"@ + items_html(
            cs,
            lang,
            post_id,
            path,
            settings,
            None,
            0,
            cs.len(),
            cs.len(),
        ) + "</ol>"@
    }
}

/// The top-level form under its title, followed by the scripts that stamp
/// the load time for the time-trap and send likes in place.
pub open spec fn main_form_html(
    lang: Lang,
    post_id: i32,
    path: Seq<char>,
    settings: CommentSettings,
) -> Seq<char> {
    "<h3 class=\"bc-form-title\">"@ + write_comment_text(lang) + "</h3>"@ + form_html(
        post_id,
        path,
        settings,
        lang,
        None,
    ) + SCRIPT@
}

/// The whole `#comments` block.
pub open spec fn thread_and_form_html(
    post_id: i32,
    path: Seq<char>,
    comments: Seq<CommentPublic>,
    settings: CommentSettings,
    flag: Option<Seq<char>>,
    lang: Lang,
) -> Seq<char> {
    STYLE@ + "<section id=\"comments\" class=\"bc\">"@ + banner_part_html(lang, flag)
        + thread_heading_html(lang, comments.len()) + thread_body_html(
        lang,
        post_id,
        path,
        comments,
        settings,
    ) + main_form_html(lang, post_id, path, settings) + "</section>"@
}

fn push_banner_part(out: &mut String, lang: Lang, flag: Option<&str>)
    ensures
        final(out)@ == old(out)@ + banner_part_html(lang, opt_str(flag)),
{
    let ghost start = out@;
    match flag {
        Some(f) => match status_banner(lang, f) {
            Some(b) => out.append(b.as_str()),
            None => {},
        },
        None => {},
    }
    assert(out@ =~= start + banner_part_html(lang, opt_str(flag)));
}

fn push_heading(out: &mut String, lang: Lang, count: usize)
    ensures
        final(out)@ == old(out)@ + thread_heading_html(lang, count as nat),
{
    let ghost start = out@;
    out.append("<h2 class=\"bc-heading\">");
    let h = lang.heading(count);
    out.append(h.as_str());
    out.append("</h2>");
    assert(out@ =~= start + thread_heading_html(lang, count as nat));
}

fn push_thread_body(
    out: &mut String,
    lang: Lang,
    post_id: i32,
    path: &str,
    comments: &[CommentPublic],
    settings: &CommentSettings,
)
    ensures
        final(out)@ == old(out)@ + thread_body_html(lang, post_id, path@, comments@, *settings),
{
    let ghost start = out@;
    let count = comments.len();
    if count == 0 {
        out.append("<p class=\"bc-empty\">");
        out.append(lang.be_first());
        out.append("</p>");
    } else {
        out.append("<ol class=\"bc-list\">");
        push_items(out, comments, lang, post_id, path, settings, None, 0, count as u64);
        out.append("</ol>");
    }
    assert(out@ =~= start + thread_body_html(lang, post_id, path@, comments@, *settings));
}

fn push_main_form(
    out: &mut String,
    lang: Lang,
    post_id: i32,
    path: &str,
    settings: &CommentSettings,
)
    ensures
        final(out)@ == old(out)@ + main_form_html(lang, post_id, path@, *settings),
{
    let ghost start = out@;
    out.append("<h3 class=\"bc-form-title\">");
    out.append(lang.write_comment());
    out.append("</h3>");
    let f = form(post_id, path, settings, lang, None);
    out.append(f.as_str());
    out.append(SCRIPT);
    assert(out@ =~= start + main_form_html(lang, post_id, path@, *settings));
}

/// Renders the whole `#comments` block in `lang`: an optional status banner,
/// the thread with its replies, and the submit form. `comments` are the
/// approved comments, oldest first; `path` is the current page path,
/// submitted as the redirect target so the browser returns here.
pub fn thread_and_form(
    post_id: i32,
    path: &str,
    comments: &[CommentPublic],
    settings: &CommentSettings,
    flag: Option<&str>,
    lang: Lang,
) -> (r: String)
    ensures
        r@ == thread_and_form_html(post_id, path@, comments@, *settings, opt_str(flag), lang),
{
    let mut out = String::new();
    out.append(STYLE);
    out.append("<section id=\"comments\" class=\"bc\">");
    let ghost s0 = out@;
    push_banner_part(&mut out, lang, flag);
    let ghost s1 = out@;
    push_heading(&mut out, lang, comments.len());
    let ghost s2 = out@;
    push_thread_body(&mut out, lang, post_id, path, comments, settings);
    let ghost s3 = out@;
    push_main_form(&mut out, lang, post_id, path, settings);
    let ghost s4 = out@;
    out.append("</section>");
    assert(s0 =~= STYLE@ + "<section id=\"comments\" class=\"bc\">"@);
    assert(out@ =~= s4 + "</section>"@);
    out
}

/// Every comment that answers no shown comment is listed at the top of the
/// thread, with as many levels of replies as there are comments.
pub proof fn top_level_comment_is_listed(
    post_id: i32,
    path: Seq<char>,
    cs: Seq<CommentPublic>,
    settings: CommentSettings,
    flag: Option<Seq<char>>,
    lang: Lang,
    i: int,
)
    requires
        0 <= i < cs.len(),
        is_listed_under(cs, cs[i], None),
    ensures
        contains_seq(
            thread_and_form_html(post_id, path, cs, settings, flag, lang),
            item_html(cs, lang, post_id, path, settings, cs[i], 0, cs.len()),
        ),
{
    let x = item_html(cs, lang, post_id, path, settings, cs[i], 0, cs.len());
    let items = items_html(cs, lang, post_id, path, settings, None, 0, cs.len(), cs.len());
    lemma_item_in_items(cs, lang, post_id, path, settings, None, 0, cs.len(), cs.len(), i);
    let body = thread_body_html(lang, post_id, path, cs, settings);
    assert(body == "<ol class=\"bc-list\">"@ + items + "</ol>"@);
    lemma_contains_in_right("<ol class=\"bc-list\">"@, items, x);
    lemma_contains_in_left("<ol class=\"bc-list\">"@ + items, "</ol>"@, x);
    let pre = STYLE@ + "<section id=\"comments\" class=\"bc\">"@ + banner_part_html(lang, flag)
        + thread_heading_html(lang, cs.len());
    let post = main_form_html(lang, post_id, path, settings) + "</section>"@;
    assert(thread_and_form_html(post_id, path, cs, settings, flag, lang) =~= pre + body + post);
    lemma_contains_in_right(pre, body, x);
    lemma_contains_in_left(pre + body, post, x);
}

/// Only the top-level form carries the captcha: the thread above it, with
/// every reply form, is the same whatever captcha is configured.
pub proof fn thread_body_ignores_captcha(
    lang: Lang,
    post_id: i32,
    path: Seq<char>,
    cs: Seq<CommentPublic>,
    s1: CommentSettings,
    s2: CommentSettings,
)
    requires
        s1.collect_email == s2.collect_email,
    ensures
        thread_body_html(lang, post_id, path, cs, s1) == thread_body_html(lang, post_id, path, cs, s2),
{
    thread_items_ignore_captcha(cs, lang, post_id, path, s1, s2);
}

/// The stylesheet of the comment section.
pub const STYLE: &'static str = "<style>
.bc { max-width: 720px; margin: 32px auto; font-family: system-ui, -apple-system, sans-serif; }
.bc-heading { font-size: 20px; margin: 0 0 16px; }
.bc-empty { color: #6b7280; }
.bc-banner { padding: 10px 14px; border-radius: 8px; font-size: 14px; margin: 0 0 16px; }
.bc-banner--ok { background: #dcfce7; color: #166534; }
.bc-banner--err { background: #fee2e2; color: #991b1b; }
.bc-list { list-style: none; margin: 0 0 28px; padding: 0; display: flex; flex-direction: column; gap: 18px; }
.bc-item { border-bottom: 1px solid #e5e7eb; padding-bottom: 14px; }
.bc-meta { display: flex; align-items: baseline; gap: 10px; margin-bottom: 4px; }
.bc-author { font-weight: 600; }
.bc-date { color: #9ca3af; font-size: 12px; }
.bc-body { color: #374151; line-height: 1.55; word-wrap: break-word; overflow-wrap: anywhere; }
.bc-form { display: flex; flex-direction: column; gap: 12px; }
.bc-field { display: flex; flex-direction: column; gap: 4px; }
.bc-field label { font-size: 13px; font-weight: 600; }
.bc-field input, .bc-field textarea { padding: 9px 11px; border: 1px solid #d1d5db; border-radius: 8px; font: inherit; }
.bc-field textarea { resize: vertical; }
.bc-hp { position: absolute; left: -9999px; width: 1px; height: 1px; overflow: hidden; }
.bc-form-title { font-size: 16px; margin: 24px 0 12px; }
.bc-replies { list-style: none; margin: 12px 0 0 20px; padding: 0 0 0 12px; border-left: 2px solid #e5e7eb; display: flex; flex-direction: column; gap: 12px; }
.bc-replies--deep { margin-left: 0; padding-left: 0; border-left: 0; }
.bc-like { display: inline; }
.bc-like-btn { border: 0; background: none; color: #6b7280; cursor: pointer; font: inherit; font-size: 13px; padding: 0; }
.bc-reply { margin-top: 6px; }
.bc-reply summary { cursor: pointer; color: #6b7280; font-size: 13px; }
.bc-reply .bc-form { margin-top: 10px; }
.bc-submit { align-self: flex-start; padding: 10px 18px; border: 0; border-radius: 8px; background: #111827; color: #fff; font: inherit; font-weight: 600; cursor: pointer; }
</style>";

/// The scripts after the top-level form: one stamps every form's load time
/// for the submit time-trap, the other sends likes in place and shows the
/// new count (without scripts, likes post and redirect back).
pub const SCRIPT: &'static str = "<script>document.querySelectorAll('input.bc-ts').forEach(function(el){el.value=Date.now();});</script><script>document.querySelectorAll('form.bc-like').forEach(function(f){f.addEventListener('submit',function(e){e.preventDefault();fetch(f.action,{method:'POST',headers:{'Accept':'application/json','Content-Type':'application/x-www-form-urlencoded'},body:new URLSearchParams(new FormData(f))}).then(function(r){return r.json();}).then(function(d){if(d.likes!==undefined){f.querySelector('.bc-likes').textContent=d.likes;}});});});</script>";

} // verus!
