use blog_comments::lang::Lang;

#[test]
fn language_from_page_code() {
    assert_eq!(Lang::from_code(Some("de")), Lang::De);
    assert_eq!(Lang::from_code(Some("de-DE")), Lang::De);
    assert_eq!(Lang::from_code(Some("  DE-at ")), Lang::De);
    assert_eq!(Lang::from_code(Some("en-US")), Lang::En);
    assert_eq!(Lang::from_code(Some("fr")), Lang::En);
    assert_eq!(Lang::from_code(Some("d")), Lang::En);
    assert_eq!(Lang::from_code(Some("")), Lang::En);
    assert_eq!(Lang::from_code(None), Lang::En);
}

#[test]
fn heading_is_singular_only_for_one() {
    assert_eq!(Lang::De.heading(1), "1 Kommentar");
    assert_eq!(Lang::De.heading(3), "3 Kommentare");
    assert_eq!(Lang::De.heading(0), "0 Kommentare");
    assert_eq!(Lang::En.heading(1), "1 Comment");
    assert_eq!(Lang::En.heading(12), "12 Comments");
    assert_eq!(Lang::En.heading(1000), "1000 Comments");
}

#[test]
fn labels_per_language() {
    assert_eq!(Lang::De.be_first(), "Seien Sie der Erste, der kommentiert.");
    assert_eq!(Lang::En.be_first(), "Be the first to comment.");
    assert_eq!(Lang::De.write_comment(), "Kommentar schreiben");
    assert_eq!(Lang::En.reply(), "Reply");
    assert_eq!(Lang::De.name(), "Name");
    assert_eq!(Lang::En.email(), "Email (not published)");
    assert_eq!(Lang::De.comment(), "Kommentar");
    assert_eq!(Lang::En.submit(), "Submit");
    assert_eq!(Lang::De.date_fmt(), "%d.%m.%Y %H:%M");
    assert_eq!(Lang::En.date_fmt(), "%b %-d, %Y %H:%M");
}

#[test]
fn banner_lookup_and_table_agree() {
    assert_eq!(Lang::En.banner("posted"), Some(("ok", "Thanks for your comment!")));
    assert_eq!(Lang::De.banner("slow_down").unwrap().0, "err");
    assert_eq!(Lang::En.banner("nope"), None);
    for lang in [Lang::De, Lang::En] {
        let table = lang.banners();
        let flags: Vec<&str> = table.iter().map(|t| t.0).collect();
        assert_eq!(flags, ["received", "posted", "captcha", "slow_down", "error"]);
        for (flag, kind, msg) in table {
            assert_eq!(lang.banner(flag), Some((kind, msg)));
        }
    }
}
