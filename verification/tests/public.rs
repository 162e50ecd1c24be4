use blog_comments::api::public::{
    comment_anchor, explicit_post_id, react_reply, ReactReply, parse_comment_id, reaction_key, redirect_back,
    post_lookup, resolve_path, sanitize_redirect, site_url, wants_json, PostLookup,
};

fn params(pairs: &[(&str, &str)]) -> Vec<(String, String)> {
    pairs.iter().map(|(k, v)| (k.to_string(), v.to_string())).collect()
}

#[test]
fn route_placeholders_are_resolved() {
    assert_eq!(resolve_path("/blog/:slug", &params(&[("slug", "hello")])), "/blog/hello");
    assert_eq!(resolve_path("/:lang/blog/:slug", &params(&[("slug", "x"), ("lang", "de")])), "/de/blog/x");
    assert_eq!(resolve_path("/blog/:slug", &params(&[])), "/blog/");
    assert_eq!(resolve_path("/about", &params(&[("slug", "x")])), "/about");
    assert_eq!(resolve_path("", &params(&[])), "/");
    assert_eq!(resolve_path(":slug", &params(&[])), "/");
    assert_eq!(resolve_path("a//b/", &params(&[])), "a//b/");
}

#[test]
fn explicit_post_id_must_be_positive() {
    assert_eq!(explicit_post_id(Some(12)), Some(12));
    assert_eq!(explicit_post_id(Some(0)), None);
    assert_eq!(explicit_post_id(Some(-4)), None);
    assert_eq!(explicit_post_id(None), None);
    assert_eq!(explicit_post_id(Some(4_294_967_297)), Some(1));
}

#[test]
fn redirects_stay_on_site() {
    assert_eq!(sanitize_redirect(Some("/blog/x?y=1")), "/blog/x?y=1");
    assert_eq!(sanitize_redirect(Some("//evil.example")), "/");
    assert_eq!(sanitize_redirect(Some("/\\evil.example")), "/");
    assert_eq!(sanitize_redirect(Some("https://evil.example")), "/");
    assert_eq!(sanitize_redirect(Some("")), "/");
    assert_eq!(sanitize_redirect(None), "/");
    assert_eq!(sanitize_redirect(Some("/")), "/");
}

#[test]
fn redirect_back_replaces_the_query() {
    assert_eq!(redirect_back("/blog/x?comment=error", "received"), "/blog/x?comment=received#comments");
    assert_eq!(redirect_back("/", "slow_down"), "/?comment=slow_down#comments");
}

#[test]
fn like_helpers() {
    assert!(wants_json(Some("application/json")));
    assert!(wants_json(Some("text/html, application/json;q=0.9")));
    assert!(!wants_json(Some("text/html")));
    assert!(!wants_json(None));
    assert_eq!(parse_comment_id(Some(" 42 ")), Some(42));
    assert_eq!(parse_comment_id(Some("-3")), Some(-3));
    assert_eq!(parse_comment_id(Some("4x")), None);
    assert_eq!(parse_comment_id(None), None);
    assert_eq!(comment_anchor("/blog/x?comment=posted", 42), "/blog/x#comment-42");
    assert_eq!(reaction_key(None), "anon");
    assert_eq!(reaction_key(Some("1.2.3.4".to_string())), "1.2.3.4");
}

#[test]
fn site_url_from_forwarded_headers() {
    assert_eq!(site_url(Some(Some(" blog.example ")), Some(Some("ignored")), None).as_deref(), Some("https://blog.example"));
    assert_eq!(site_url(None, Some(Some("blog.example")), Some("http")).as_deref(), Some("http://blog.example"));
    assert_eq!(site_url(None, Some(Some("localhost:3000")), None), None);
    assert_eq!(site_url(None, Some(Some("127.0.0.1:80")), None), None);
    assert_eq!(site_url(Some(None), Some(Some("blog.example")), None), None);
    assert_eq!(site_url(None, None, None), None);
    assert_eq!(site_url(Some(Some("  ")), None, None), None);
}

#[test]
fn like_replies() {
    assert!(matches!(react_reply(true, "/p", None, None), ReactReply::BadId));
    assert!(matches!(react_reply(false, "/p?x=1", None, None), ReactReply::Redirect(ref to) if to == "/p?x=1"));
    assert!(matches!(react_reply(true, "/p", Some(4), Some(9)), ReactReply::Likes(9)));
    assert!(matches!(react_reply(true, "/p", Some(4), None), ReactReply::NotFound));
    assert!(matches!(react_reply(false, "/p?x=1", Some(4), Some(9)), ReactReply::Redirect(ref to) if to == "/p#comment-4"));
}

#[test]
fn helper_finds_its_post_by_id_then_slug() {
    let params = vec![("lang".to_string(), "de".to_string()), ("slug".to_string(), "hello".to_string())];
    assert!(matches!(post_lookup(Some(5), &params), PostLookup::Id(5)));
    match post_lookup(None, &params) {
        PostLookup::Slug(s) => assert_eq!(s, "hello"),
        _ => panic!("expected a slug lookup"),
    }
    match post_lookup(Some(0), &params) {
        PostLookup::Slug(s) => assert_eq!(s, "hello"),
        _ => panic!("expected a slug lookup"),
    }
    assert!(matches!(post_lookup(None, &[]), PostLookup::Missing));
    assert!(matches!(post_lookup(Some(-2), &params[..1]), PostLookup::Missing));
}
