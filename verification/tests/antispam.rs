use std::time::{SystemTime, UNIX_EPOCH};

use blog_comments::antispam::{
    akismet_request, akismet_verdict, captcha_check, client_ip, honeypot_tripped, too_fast,
    too_fast_at, CaptchaCheck,
};
use blog_comments::model::CommentSettings;

#[test]
fn honeypot() {
    assert!(honeypot_tripped(Some("http://spam")));
    assert!(!honeypot_tripped(Some("")));
    assert!(!honeypot_tripped(Some("   ")));
    assert!(!honeypot_tripped(None));
}

#[test]
fn time_trap_ignores_missing_or_bad_ts() {
    assert!(!too_fast(None, 2));
    assert!(!too_fast(Some("not-a-number"), 2));
}

#[test]
fn time_trap_flags_instant_submit() {
    let now = SystemTime::now()
        .duration_since(UNIX_EPOCH)
        .unwrap()
        .as_millis()
        .to_string();
    assert!(too_fast(Some(&now), 2));
}

#[test]
fn time_trap_passes_old_ts() {
    assert!(!too_fast(Some("1000"), 2)); // 1970 — long ago
}

#[test]
fn honeypot_ignores_unicode_white_space() {
    assert!(!honeypot_tripped(Some("\u{3000}\t\u{a0}\n")));
    assert!(honeypot_tripped(Some(" x ")));
}

#[test]
fn time_trap_boundaries_against_a_fixed_clock() {
    // 1999 ms after the stamp is too fast for 2 s, 2000 ms is not.
    assert!(too_fast_at(Some("1000"), 2, 2999));
    assert!(!too_fast_at(Some("1000"), 2, 3000));
    // A stamp in the future counts as no time elapsed.
    assert!(too_fast_at(Some("5000"), 2, 1000));
    // White space around the stamp is ignored; signs follow integer parsing.
    assert!(too_fast_at(Some("  1000 "), 2, 1500));
    assert!(too_fast_at(Some("+1000"), 2, 1500));
    assert!(!too_fast_at(Some("-1000"), 2, 1500));
    assert!(!too_fast_at(Some("12a"), 2, 1500));
    // A stamp too large for u128 is garbled.
    assert!(!too_fast_at(Some("340282366920938463463374607431768211456"), 2, 0));
    assert!(too_fast_at(Some("340282366920938463463374607431768211455"), 2, 0));
}

#[test]
fn client_ip_prefers_first_forwarded_address() {
    assert_eq!(client_ip(Some(" 203.0.113.7 , 10.0.0.1"), Some("198.51.100.2")).as_deref(), Some("203.0.113.7"));
    assert_eq!(client_ip(None, Some("198.51.100.2")).as_deref(), Some("198.51.100.2"));
    assert_eq!(client_ip(Some("127.0.0.1"), None), None);
    assert_eq!(client_ip(None, Some(" ::1 ")), None);
    assert_eq!(client_ip(Some(""), Some("198.51.100.2")), None);
    assert_eq!(client_ip(None, None), None);
}

#[test]
fn captcha_passes_when_not_configured_or_without_secret() {
    let mut s = CommentSettings::default();
    assert!(matches!(captcha_check(&s, Some("tok"), None), CaptchaCheck::Pass));
    s.captcha_provider = "hcaptcha".to_string();
    assert!(matches!(captcha_check(&s, None, None), CaptchaCheck::Pass));
    s.captcha_secret = Some(String::new());
    assert!(matches!(captcha_check(&s, None, None), CaptchaCheck::Pass));
}

#[test]
fn captcha_fails_without_response() {
    let mut s = CommentSettings::default();
    s.captcha_provider = "recaptcha".to_string();
    s.captcha_secret = Some("sec".to_string());
    assert!(matches!(captcha_check(&s, Some("h-token"), None), CaptchaCheck::Fail));
    assert!(matches!(captcha_check(&s, None, Some("")), CaptchaCheck::Fail));
}

#[test]
fn captcha_verification_request_is_url_encoded() {
    let mut s = CommentSettings::default();
    s.captcha_provider = "hcaptcha".to_string();
    s.captcha_secret = Some("s&c=r t".to_string());
    match captcha_check(&s, Some("ä/b"), None) {
        CaptchaCheck::Verify { url, form } => {
            assert_eq!(url, "https://api.hcaptcha.com/siteverify");
            assert_eq!(form, "secret=s%26c%3Dr%20t&response=%C3%A4%2Fb");
        }
        other => panic!("unexpected {other:?}"),
    }
}

#[test]
fn akismet_request_and_verdict() {
    let r = akismet_request("k3y", "https://blog.example", "1.2.3.4", "UA/1", "Jo Doe", Some("jo@x.org"), "hi!");
    assert_eq!(r.url, "https://k3y.rest.akismet.com/1.1/comment-check");
    assert_eq!(
        r.form,
        "blog=https%3A%2F%2Fblog.example&user_ip=1.2.3.4&user_agent=UA%2F1&comment_type=comment&comment_author=Jo%20Doe&comment_content=hi%21&comment_author_email=jo%40x.org"
    );
    let r = akismet_request("k", "b", "", "", "a", None, "c");
    assert_eq!(r.form, "blog=b&user_ip=&user_agent=&comment_type=comment&comment_author=a&comment_content=c");
    assert!(akismet_verdict(" true\n"));
    assert!(!akismet_verdict("false"));
    assert!(!akismet_verdict("True"));
    assert!(!akismet_verdict("invalid"));
}
