use blog_comments::api::admin::{
    attach_titles, list_filter, make_stats, moderation_op, post_ids, unknown_action_message,
    ModerationOp,
};
use blog_comments::api::dashboard::{card_rows, truncate};
use blog_comments::api::settings::clean_settings;
use blog_comments::api::submission::CommentStatus;
use blog_comments::model::{CmsPost, Comment, CommentSettings, Stats};
use chrono::{TimeZone, Utc};

fn comment(id: i64, post_id: i32, body: &str) -> Comment {
    Comment {
        id,
        post_id,
        author_name: format!("author{id}"),
        author_email: None,
        body: body.to_string(),
        status: "pending".to_string(),
        created_at: Utc.with_ymd_and_hms(2026, 1, 2, 3, 4, 5).unwrap().timestamp(),
        post_title: None,
    }
}

fn post(id: i32, title: &str) -> CmsPost {
    CmsPost { id, title: title.to_string(), slug: format!("p{id}") }
}

#[test]
fn list_filter_keeps_known_statuses() {
    assert_eq!(list_filter(Some("pending")).as_deref(), Some("pending"));
    assert_eq!(list_filter(Some("spam")).as_deref(), Some("spam"));
    assert_eq!(list_filter(Some("deleted")), None);
    assert_eq!(list_filter(None), None);
}

#[test]
fn moderation_actions() {
    assert_eq!(moderation_op("approve"), Some(ModerationOp::SetStatus(CommentStatus::Approved)));
    assert_eq!(moderation_op("spam"), Some(ModerationOp::SetStatus(CommentStatus::Spam)));
    assert_eq!(moderation_op("pending"), Some(ModerationOp::SetStatus(CommentStatus::Pending)));
    assert_eq!(moderation_op("delete"), Some(ModerationOp::Delete));
    assert_eq!(moderation_op("approved"), None);
    assert_eq!(unknown_action_message("zap"), "unknown action: zap");
}

#[test]
fn titles_are_attached_by_post_id() {
    let mut cs = vec![comment(1, 10, "a"), comment(2, 20, "b"), comment(3, 10, "c")];
    assert_eq!(post_ids(&cs), vec![10, 20]);
    attach_titles(&mut cs, &[post(10, "Ten"), post(30, "Thirty")]);
    assert_eq!(cs[0].post_title.as_deref(), Some("Ten"));
    assert_eq!(cs[1].post_title, None);
    assert_eq!(cs[2].post_title.as_deref(), Some("Ten"));
    assert_eq!(cs[2].body, "c");
}

#[test]
fn stats_total_is_the_sum() {
    let s = make_stats(3, 4, 5, vec![]);
    assert_eq!(s.total, 12);
    let d = Stats::default();
    assert_eq!((d.pending, d.approved, d.spam, d.total, d.recent.len()), (0, 0, 0, 0, 0));
}

#[test]
fn card_rows_and_previews() {
    let mut c = comment(1, 42, "  Hello\n\n  world  ");
    let rows = card_rows(vec![c.duplicate()]);
    assert_eq!(rows[0].author, "author1");
    assert_eq!(rows[0].snippet, "Hello world");
    assert_eq!(rows[0].date, "02.01.2026 03:04");
    assert_eq!(rows[0].post_title, "Post #42");
    c.post_title = Some("Title".into());
    assert_eq!(card_rows(vec![c])[0].post_title, "Title");
    assert_eq!(truncate("abcde fgh", 6), "abcde…");
    assert_eq!(truncate("abcdef", 6), "abcdef");
    assert_eq!(truncate("üüüüüüü", 3), "üüü…");
    assert_eq!(truncate(&"word ".repeat(40), 90).chars().count(), 90);
}

#[test]
fn settings_are_cleaned_before_saving() {
    let mut s = CommentSettings::default();
    s.captcha_provider = "turnstile".into();
    s.captcha_site_key = Some("  key ".into());
    s.captcha_secret = Some("   ".into());
    s.notify_email = Some(" mod@x.org ".into());
    let c = clean_settings(s);
    assert_eq!(c.captcha_provider, "none");
    assert_eq!(c.captcha_site_key.as_deref(), Some("key"));
    assert_eq!(c.captcha_secret, None);
    assert_eq!(c.notify_email.as_deref(), Some(" mod@x.org "));
    assert!(c.require_moderation && c.collect_email);
    let mut s = CommentSettings::default();
    s.captcha_provider = "recaptcha".into();
    let c = clean_settings(s);
    assert_eq!(c.captcha_provider, "recaptcha");
    let again = clean_settings(c.duplicate());
    assert_eq!(again.captcha_provider, c.captcha_provider);
    assert_eq!(again.captcha_site_key, c.captcha_site_key);
}

#[test]
fn default_settings_moderate_everything() {
    let s = CommentSettings::default();
    assert!(s.require_moderation);
    assert!(s.collect_email);
    assert_eq!(s.captcha_provider, "none");
    assert!(s.captcha_site_key.is_none() && s.captcha_secret.is_none());
}
