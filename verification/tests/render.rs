use blog_comments::lang::Lang;
use blog_comments::model::{CommentPublic, CommentSettings};
use blog_comments::render::{captcha_widget, status_banner, thread_and_form};
use chrono::{TimeZone, Utc};

fn comment(name: &str, body: &str) -> CommentPublic {
    CommentPublic {
        id: 1,
        parent_id: None,
        author_name: name.into(),
        body: body.into(),
        created_at: Utc.with_ymd_and_hms(2026, 8, 9, 12, 0, 0).unwrap().timestamp(),
        likes: 0,
    }
}

#[test]
fn escapes_author_and_body() {
    let out = thread_and_form(
        7,
        "/blog/post",
        &[comment("<script>evil</script>", "line1\nline2 <b>x</b>")],
        &CommentSettings::default(),
        None,
        Lang::De,
    );
    assert!(out.contains("&lt;script&gt;evil"));
    assert!(!out.contains("<script>evil"));
    assert!(out.contains("line1<br>line2 &lt;b&gt;x&lt;/b&gt;"));
}

#[test]
fn form_carries_post_id_and_redirect_and_honeypot() {
    let out = thread_and_form(42, "/blog/hi", &[], &CommentSettings::default(), None, Lang::De);
    assert!(out.contains(r#"name="post_id" value="42""#));
    assert!(out.contains(r#"name="redirect" value="/blog/hi""#));
    assert!(out.contains(r#"name="website""#));
    assert!(out.contains("Seien Sie der Erste"));
}

#[test]
fn email_field_toggles_with_setting() {
    let mut s = CommentSettings::default();
    assert!(thread_and_form(1, "/", &[], &s, None, Lang::De).contains(r#"name="author_email""#));
    s.collect_email = false;
    assert!(!thread_and_form(1, "/", &[], &s, None, Lang::De).contains(r#"name="author_email""#));
}

#[test]
fn captcha_widget_only_when_configured() {
    let mut s = CommentSettings::default();
    assert!(!thread_and_form(1, "/", &[], &s, None, Lang::De).contains("h-captcha"));
    s.captcha_provider = "hcaptcha".into();
    s.captcha_site_key = Some("KEY123".into());
    assert!(thread_and_form(1, "/", &[], &s, None, Lang::De).contains(r#"data-sitekey="KEY123""#));
}

#[test]
fn banner_shown_for_flag() {
    let out = thread_and_form(1, "/", &[], &CommentSettings::default(), Some("received"), Lang::De);
    assert!(out.contains("bc-banner--ok"));
    assert!(out.contains("nach einer kurzen Prüfung"));
}

#[test]
fn comment_shows_utc_date_and_heading_counts() {
    let out = thread_and_form(1, "/", &[comment("Ann", "Hi")], &CommentSettings::default(), None, Lang::De);
    assert!(out.contains(r#"<time class="bc-date">09.08.2026 12:00</time>"#));
    assert!(out.contains(r#"<h2 class="bc-heading">1 Kommentar</h2>"#));
    let two = [comment("A", "x"), comment("B", "y")];
    let out = thread_and_form(1, "/", &two, &CommentSettings::default(), None, Lang::De);
    assert!(out.contains(r#"<h2 class="bc-heading">2 Kommentare</h2>"#));
    assert!(out.find(">A<").unwrap() < out.find(">B<").unwrap());
    let out = thread_and_form(1, "/", &[], &CommentSettings::default(), None, Lang::De);
    assert!(out.contains(r#"<h2 class="bc-heading">0 Kommentare</h2>"#));
}

#[test]
fn unknown_flag_shows_no_banner() {
    let out = thread_and_form(1, "/", &[], &CommentSettings::default(), Some("bogus"), Lang::De);
    assert!(!out.contains(r#"<p class="bc-banner"#));
    assert_eq!(status_banner(Lang::De, "bogus"), None);
    assert_eq!(
        status_banner(Lang::De, "captcha").unwrap(),
        r#"<p class="bc-banner bc-banner--err">Bitte bestätigen Sie, dass Sie kein Roboter sind, und senden Sie erneut.</p>"#
    );
}

#[test]
fn redirect_path_is_escaped_in_the_form() {
    let out = thread_and_form(-3, "/a\"b<c>", &[], &CommentSettings::default(), None, Lang::De);
    assert!(out.contains(r#"name="redirect" value="/a&quot;b&lt;c&gt;""#));
    assert!(out.contains(r#"name="post_id" value="-3""#));
}

#[test]
fn recaptcha_widget_and_escaped_site_key() {
    let mut s = CommentSettings::default();
    s.captcha_provider = "recaptcha".into();
    s.captcha_site_key = Some("k\"1".into());
    assert_eq!(
        captcha_widget(&s),
        r#"<div class="g-recaptcha" data-sitekey="k&quot;1"></div><script src="https://www.google.com/recaptcha/api.js" async defer></script>"#
    );
    s.captcha_site_key = Some(String::new());
    assert_eq!(captcha_widget(&s), "");
    s.captcha_provider = "none".into();
    s.captcha_site_key = Some("k".into());
    assert_eq!(captcha_widget(&s), "");
}

fn reply(id: i64, parent: Option<i64>, name: &str) -> CommentPublic {
    CommentPublic {
        id,
        parent_id: parent,
        author_name: name.into(),
        body: "text".into(),
        created_at: 0,
        likes: 0,
    }
}

#[test]
fn replies_nest_inside_their_parent() {
    let cs = [reply(1, None, "A"), reply(2, Some(1), "B"), reply(3, None, "C")];
    let out = thread_and_form(1, "/", &cs, &CommentSettings::default(), None, Lang::De);
    assert!(out.contains(r#"<ol class="bc-replies"><li class="bc-item" id="comment-2">"#));
    let a = out.find(r#"id="comment-1""#).unwrap();
    let b = out.find(r#"id="comment-2""#).unwrap();
    let c = out.find(r#"id="comment-3""#).unwrap();
    assert!(a < b && b < c);
    assert!(out.contains(r#"<h2 class="bc-heading">3 Kommentare</h2>"#));
}

#[test]
fn every_comment_has_a_reply_form_without_captcha() {
    let mut s = CommentSettings::default();
    s.captcha_provider = "hcaptcha".into();
    s.captcha_site_key = Some("KEY".into());
    let cs = [reply(1, None, "A"), reply(2, Some(1), "B")];
    let out = thread_and_form(9, "/p", &cs, &s, None, Lang::De);
    assert!(out.contains(r#"<details class="bc-reply"><summary>Antworten</summary>"#));
    assert!(out.contains(r#"name="parent_id" value="1""#));
    assert!(out.contains(r#"name="parent_id" value="2""#));
    assert!(out.contains(r#"id="bc-name-2""#));
    assert_eq!(out.matches(r#"class="h-captcha""#).count(), 1);
    let top = out.find(r#"<h3 class="bc-form-title">"#).unwrap();
    assert!(out.find(r#"class="h-captcha""#).unwrap() > top);
}

#[test]
fn like_count_is_shown() {
    let mut c = reply(4, None, "A");
    c.likes = 5;
    let out = thread_and_form(1, "/x", &[c], &CommentSettings::default(), None, Lang::De);
    assert!(out.contains(r#"<span class="bc-likes">5</span>"#));
    assert!(out.contains(r#"name="comment_id" value="4""#));
}

#[test]
fn english_page_gets_english_texts() {
    let out = thread_and_form(1, "/", &[], &CommentSettings::default(), Some("posted"), Lang::En);
    assert!(out.contains(r#"<h2 class="bc-heading">0 Comments</h2>"#));
    assert!(out.contains("Be the first to comment."));
    assert!(out.contains("Write a comment"));
    assert!(out.contains("Thanks for your comment!"));
    let one = thread_and_form(1, "/", &[reply(1, None, "A")], &CommentSettings::default(), None, Lang::En);
    assert!(one.contains(r#"<h2 class="bc-heading">1 Comment</h2>"#));
    assert!(one.contains("<summary>Reply</summary>"));
    assert!(!one.contains("Kommentar"));
}

#[test]
fn nesting_stops_indenting_past_the_limit() {
    let chain = |n: i64| -> Vec<CommentPublic> {
        (1..=n).map(|i| reply(i, if i == 1 { None } else { Some(i - 1) }, "x")).collect()
    };
    let five = thread_and_form(1, "/", &chain(5), &CommentSettings::default(), None, Lang::De);
    assert!(!five.contains(r#"<ol class="bc-replies bc-replies--deep">"#));
    assert_eq!(five.matches(r#"<ol class="bc-replies">"#).count(), 4);
    let six = thread_and_form(1, "/", &chain(6), &CommentSettings::default(), None, Lang::De);
    assert_eq!(six.matches(r#"<ol class="bc-replies bc-replies--deep">"#).count(), 1);
}

#[test]
fn reply_to_a_missing_comment_is_listed_at_the_top() {
    let cs = [reply(5, Some(99), "Orphan")];
    let out = thread_and_form(1, "/", &cs, &CommentSettings::default(), None, Lang::De);
    assert!(out.contains(r#"<ol class="bc-list"><li class="bc-item" id="comment-5">"#));
}
