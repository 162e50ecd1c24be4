use blog_comments::api::public::CommentForm;
use blog_comments::api::submission::{
    check_submission, check_submission_at, moderator_notification, reply_notification,
    CommentStatus, SubmitAction, SubmitEvent, SubmitFlag, SubmitFlow, SubmitStage,
};
use blog_comments::model::CommentSettings;

fn form() -> CommentForm {
    CommentForm {
        post_id: Some(" 7 ".into()),
        parent_id: None,
        author_name: Some("  Ann ".into()),
        author_email: Some(" ann@example.org ".into()),
        body: Some(" Hello <there> ".into()),
        redirect: Some("/blog/x".into()),
        website: None,
        ts: None,
        hcaptcha: None,
        recaptcha: None,
    }
}

#[test]
fn form_checks_accept_a_valid_comment() {
    let s = check_submission_at(&form(), 0).unwrap();
    assert_eq!(s.post_id, 7);
    assert_eq!(s.parent_id, None);
    assert_eq!(s.author_name, "Ann");
    assert_eq!(s.author_email.as_deref(), Some("ann@example.org"));
    assert_eq!(s.body, "Hello <there>");
    assert!(check_submission(&form()).is_ok());
}

#[test]
fn form_checks_reject_bots_and_bad_fields() {
    let mut f = form();
    f.website = Some("http://spam".into());
    assert_eq!(check_submission_at(&f, 0).unwrap_err(), SubmitFlag::Received);
    let mut f = form();
    f.ts = Some("1000".into());
    assert_eq!(check_submission_at(&f, 1500).unwrap_err(), SubmitFlag::SlowDown);
    assert!(check_submission_at(&f, 3000).is_ok());
    for bad in [None, Some("0"), Some("-1"), Some("x"), Some("2147483648")] {
        let mut f = form();
        f.post_id = bad.map(String::from);
        assert_eq!(check_submission_at(&f, 0).unwrap_err(), SubmitFlag::Error);
    }
    let mut f = form();
    f.author_name = Some("   ".into());
    assert_eq!(check_submission_at(&f, 0).unwrap_err(), SubmitFlag::Error);
    let mut f = form();
    f.author_name = Some("n".repeat(121));
    assert_eq!(check_submission_at(&f, 0).unwrap_err(), SubmitFlag::Error);
    let mut f = form();
    f.author_name = Some("ü".repeat(120));
    assert!(check_submission_at(&f, 0).is_ok());
    let mut f = form();
    f.body = Some("b".repeat(5001));
    assert_eq!(check_submission_at(&f, 0).unwrap_err(), SubmitFlag::Error);
    let mut f = form();
    f.body = None;
    assert_eq!(check_submission_at(&f, 0).unwrap_err(), SubmitFlag::Error);
}

#[test]
fn form_checks_drop_implausible_email_and_parent() {
    let mut f = form();
    f.author_email = Some("not-an-address".into());
    f.parent_id = Some(" 12 ".into());
    let s = check_submission_at(&f, 0).unwrap();
    assert_eq!(s.author_email, None);
    assert_eq!(s.parent_id, Some(12));
    let mut f = form();
    f.author_email = Some(format!("{}@x", "a".repeat(253)));
    f.parent_id = Some("0".into());
    let s = check_submission_at(&f, 0).unwrap();
    assert_eq!(s.author_email, None);
    assert_eq!(s.parent_id, None);
}

fn settings(moderation: bool, notify: Option<&str>, akismet: Option<&str>) -> CommentSettings {
    let mut s = CommentSettings::default();
    s.require_moderation = moderation;
    s.notify_email = notify.map(String::from);
    s.akismet_key = akismet.map(String::from);
    s
}

#[test]
fn flow_stores_a_pending_comment_and_notifies_the_moderator() {
    let sub = check_submission_at(&form(), 0).unwrap();
    let (mut flow, a) = SubmitFlow::start(sub, Some("1.2.3.4".into()), Some("UA".into()), None);
    assert!(matches!(a, SubmitAction::LoadPost(7)));
    assert!(matches!(flow.step(SubmitEvent::Post(Some("My <Post>".into()))), SubmitAction::LoadSettings));
    assert!(matches!(flow.step(SubmitEvent::Settings(settings(true, Some("mod@x.org"), None))), SubmitAction::VerifyCaptcha));
    match flow.step(SubmitEvent::Captcha(true)) {
        SubmitAction::CountRecentByIp { ip, secs } => {
            assert_eq!(ip, "1.2.3.4");
            assert_eq!(secs, 60);
        }
        other => panic!("{other:?}"),
    }
    assert!(matches!(flow.step(SubmitEvent::RecentCount(4)), SubmitAction::CountRecentGlobal { secs: 60 }));
    match flow.step(SubmitEvent::RecentCount(29)) {
        SubmitAction::Store(c) => {
            assert_eq!(c.status, CommentStatus::Pending);
            assert_eq!(c.status.code(), "pending");
            assert_eq!(c.post_id, 7);
            assert_eq!(c.author_name, "Ann");
            assert_eq!(c.ip.as_deref(), Some("1.2.3.4"));
            assert_eq!(c.user_agent.as_deref(), Some("UA"));
        }
        other => panic!("{other:?}"),
    }
    match flow.step(SubmitEvent::Stored) {
        SubmitAction::Finish { flag, moderator, reply } => {
            assert_eq!(flag, SubmitFlag::Received);
            let m = moderator.unwrap();
            assert_eq!(m.to, "mod@x.org");
            assert_eq!(m.subject, "Neuer Kommentar: My <Post>");
            assert_eq!(
                m.html,
                "<p>Ein neuer Kommentar von <strong>Ann</strong> zu „My &lt;Post&gt;“ wartet auf Freigabe.</p><blockquote>Hello &lt;there&gt;</blockquote>"
            );
            assert!(reply.is_none());
        }
        other => panic!("{other:?}"),
    }
    assert_eq!(flow.stage, SubmitStage::Finished);
}

#[test]
fn flow_publishes_without_moderation_and_checks_akismet() {
    let mut f = form();
    f.parent_id = Some("3".into());
    let sub = check_submission_at(&f, 0).unwrap();
    let (mut flow, _) = SubmitFlow::start(sub, None, None, Some("https://blog.example".into()));
    assert!(matches!(flow.step(SubmitEvent::Post(Some("T".into()))), SubmitAction::CheckParent { parent_id: 3, post_id: 7 }));
    assert!(matches!(flow.step(SubmitEvent::ParentValid(true)), SubmitAction::LoadSettings));
    flow.step(SubmitEvent::Settings(settings(false, None, Some("key"))));
    assert!(matches!(flow.step(SubmitEvent::Captcha(true)), SubmitAction::CountRecentGlobal { secs: 60 }));
    match flow.step(SubmitEvent::RecentCount(0)) {
        SubmitAction::CheckSpam(req) => {
            assert_eq!(req.url, "https://key.rest.akismet.com/1.1/comment-check");
            assert!(req.form.starts_with("blog=https%3A%2F%2Fblog.example&user_ip=&user_agent=&"));
        }
        other => panic!("{other:?}"),
    }
    match flow.step(SubmitEvent::SpamVerdict(false)) {
        SubmitAction::Store(c) => assert_eq!(c.status, CommentStatus::Approved),
        other => panic!("{other:?}"),
    }
    assert!(matches!(flow.step(SubmitEvent::Stored), SubmitAction::LookupParentEmail(3)));
    match flow.step(SubmitEvent::ParentEmail(Some("parent@x.org".into()))) {
        SubmitAction::Finish { flag, moderator, reply } => {
            assert_eq!(flag, SubmitFlag::Posted);
            assert!(moderator.is_none());
            let r = reply.unwrap();
            assert_eq!(r.to, "parent@x.org");
            assert_eq!(r.subject, "Neue Antwort auf Ihren Kommentar: T");
        }
        other => panic!("{other:?}"),
    }
}

#[test]
fn flow_spam_is_stored_silently() {
    let sub = check_submission_at(&form(), 0).unwrap();
    let (mut flow, _) = SubmitFlow::start(sub, None, None, Some("https://b".into()));
    flow.step(SubmitEvent::Post(Some("T".into())));
    flow.step(SubmitEvent::Settings(settings(true, Some("mod@x.org"), Some("key"))));
    flow.step(SubmitEvent::Captcha(true));
    flow.step(SubmitEvent::RecentCount(0));
    match flow.step(SubmitEvent::SpamVerdict(true)) {
        SubmitAction::Store(c) => assert_eq!(c.status.code(), "spam"),
        other => panic!("{other:?}"),
    }
    match flow.step(SubmitEvent::Stored) {
        SubmitAction::Finish { flag, moderator, reply } => {
            assert_eq!(flag, SubmitFlag::Received);
            assert!(moderator.is_none() && reply.is_none());
        }
        other => panic!("{other:?}"),
    }
}

fn finish_flag(a: SubmitAction) -> SubmitFlag {
    match a {
        SubmitAction::Finish { flag, .. } => flag,
        other => panic!("{other:?}"),
    }
}

#[test]
fn flow_error_paths() {
    let start = || SubmitFlow::start(check_submission_at(&form(), 0).unwrap(), Some("9.9.9.9".into()), None, None).0;
    let mut f = start();
    assert_eq!(finish_flag(f.step(SubmitEvent::Post(None))), SubmitFlag::Error);
    let mut f = start();
    f.step(SubmitEvent::Post(Some("T".into())));
    assert_eq!(finish_flag(f.step(SubmitEvent::Failed)), SubmitFlag::Error);
    let mut f = start();
    f.step(SubmitEvent::Post(Some("T".into())));
    f.step(SubmitEvent::Settings(CommentSettings::default()));
    assert_eq!(finish_flag(f.step(SubmitEvent::Captcha(false))), SubmitFlag::Captcha);
    let mut f = start();
    f.step(SubmitEvent::Post(Some("T".into())));
    f.step(SubmitEvent::Settings(CommentSettings::default()));
    f.step(SubmitEvent::Captcha(true));
    assert_eq!(finish_flag(f.step(SubmitEvent::RecentCount(5))), SubmitFlag::SlowDown);
    let mut f = start();
    f.step(SubmitEvent::Post(Some("T".into())));
    f.step(SubmitEvent::Settings(CommentSettings::default()));
    f.step(SubmitEvent::Captcha(true));
    f.step(SubmitEvent::RecentCount(0));
    assert_eq!(finish_flag(f.step(SubmitEvent::RecentCount(30))), SubmitFlag::SlowDown);
    let mut f = start();
    assert_eq!(finish_flag(f.step(SubmitEvent::Stored)), SubmitFlag::Error);
    assert_eq!(f.stage, SubmitStage::Finished);
    assert_eq!(SubmitFlag::SlowDown.code(), "slow_down");
}

#[test]
fn notifications_quote_at_most_400_characters() {
    let body = "x".repeat(450);
    let n = reply_notification(&Some("a@b".into()), "T", "A", &body).unwrap();
    assert!(n.html.contains(&format!("<blockquote>{}</blockquote>", "x".repeat(400))));
    assert!(reply_notification(&Some(String::new()), "T", "A", "b").is_none());
    assert!(reply_notification(&None, "T", "A", "b").is_none());
    assert!(moderator_notification(&Some(String::new()), "T", "A", "b").is_none());
}
