//! The visitor-facing texts of the comment section in each supported
//! language. The language comes from the code of the page being rendered;
//! German is the only one besides English.

use vstd::prelude::*;
use crate::numbers::{decimal, push_decimal};
use crate::text::{
    ascii_lowercase, has_prefix, owned, starts_with, str_eq, to_ascii_lowercase, trim, trimmed,
};

verus! {

/// The languages the public texts are available in.
#[derive(Clone, Copy, Debug, PartialEq, Eq, Structural)]
pub enum Lang {
    En,
    De,
}

/// Whether a page language code selects German: after trimming and
/// lower-casing it starts with `de` (`"de"`, `"de-DE"`, `" DE "`).
pub open spec fn is_german_code(code: Seq<char>) -> bool {
    has_prefix(ascii_lowercase(trimmed(code)), seq!['d', 'e'])
}

/// The language that a page language code selects.
pub open spec fn lang_of_code(code: Option<Seq<char>>) -> Lang {
    match code {
        Some(c) => if is_german_code(c) {
            Lang::De
        } else {
            Lang::En
        },
        None => Lang::En,
    }
}

/// The heading above a thread of `count` comments.
pub open spec fn heading_text(lang: Lang, count: nat) -> Seq<char> {
    match lang {
        Lang::De => if count == 1 {
            "1 Kommentar"@
        } else {
            decimal(count) + " Kommentare"@
        },
        Lang::En => if count == 1 {
            "1 Comment"@
        } else {
            decimal(count) + " Comments"@
        },
    }
}

/// The flags that the submit handler redirects back with, in the order
/// `banners` lists them.
pub open spec fn banner_flags() -> Seq<Seq<char>> {
    seq!["received"@, "posted"@, "captcha"@, "slow_down"@, "error"@]
}

/// The `(kind, message)` banner for a status flag, `None` for an unknown flag.
pub open spec fn banner_text(lang: Lang, flag: Seq<char>) -> Option<(Seq<char>, Seq<char>)> {
    match lang {
        Lang::De => if flag == "received"@ {
            Some(("ok"@, "Danke! Ihr Kommentar wird nach einer kurzen Prüfung veröffentlicht."@))
        } else if flag == "posted"@ {
            Some(("ok"@, "Danke für Ihren Kommentar!"@))
        } else if flag == "captcha"@ {
            Some(
                (
                    "err"@,
                    "Bitte bestätigen Sie, dass Sie kein Roboter sind, und senden Sie erneut."@,
                ),
            )
        } else if flag == "slow_down"@ {
            Some(
                (
                    "err"@,
                    "Zu viele Kommentare in kurzer Zeit. Bitte versuchen Sie es gleich noch einmal."@,
                ),
            )
        } else if flag == "error"@ {
            Some(
                (
                    "err"@,
                    "Ihr Kommentar konnte nicht gespeichert werden. Bitte prüfen Sie Ihre Eingaben."@,
                ),
            )
        } else {
            None
        },
        Lang::En => if flag == "received"@ {
            Some(("ok"@, "Thanks! Your comment will be published after a quick review."@))
        } else if flag == "posted"@ {
            Some(("ok"@, "Thanks for your comment!"@))
        } else if flag == "captcha"@ {
            Some(("err"@, "Please confirm that you are not a robot and submit again."@))
        } else if flag == "slow_down"@ {
            Some(("err"@, "Too many comments in a short time. Please try again in a moment."@))
        } else if flag == "error"@ {
            Some(("err"@, "Your comment could not be saved. Please check your input."@))
        } else {
            None
        },
    }
}

/// The line shown in place of an empty thread.
pub open spec fn be_first_text(lang: Lang) -> Seq<char> {
    match lang {
        Lang::De => "Seien Sie der Erste, der kommentiert."@,
        Lang::En => "Be the first to comment."@,
    }
}

/// The title of the comment form.
pub open spec fn write_comment_text(lang: Lang) -> Seq<char> {
    match lang {
        Lang::De => "Kommentar schreiben"@,
        Lang::En => "Write a comment"@,
    }
}

/// The label of a reply link.
pub open spec fn reply_label(lang: Lang) -> Seq<char> {
    match lang {
        Lang::De => "Antworten"@,
        Lang::En => "Reply"@,
    }
}

/// The label of the email field.
pub open spec fn email_label(lang: Lang) -> Seq<char> {
    match lang {
        Lang::De => "E-Mail (wird nicht veröffentlicht)"@,
        Lang::En => "Email (not published)"@,
    }
}

/// The label of the comment field.
pub open spec fn comment_label(lang: Lang) -> Seq<char> {
    match lang {
        Lang::De => "Kommentar"@,
        Lang::En => "Comment"@,
    }
}

/// The label of the submit button.
pub open spec fn submit_label(lang: Lang) -> Seq<char> {
    match lang {
        Lang::De => "Absenden"@,
        Lang::En => "Submit"@,
    }
}

/// The strftime pattern for comment dates.
pub open spec fn date_pattern(lang: Lang) -> Seq<char> {
    match lang {
        Lang::De => "%d.%m.%Y %H:%M"@,
        Lang::En => "%b %-d, %Y %H:%M"@,
    }
}

/// The label of the name field.
pub open spec fn name_label(lang: Lang) -> Seq<char> {
    "Name"@
}

impl Lang {
    /// Picks the language of a page language code such as `"de"`, `"de-DE"`
    /// or `"en-US"`; anything that is not German is English.
    pub fn from_code(code: Option<&str>) -> (r: Lang)
        ensures
            r == lang_of_code(
                match code {
                    Some(c) => Some(c@),
                    None => None,
                },
            ),
    {
        match code {
            Some(c) => {
                let t = trim(c);
                let l = to_ascii_lowercase(t.as_str());
                if starts_with(l.as_str(), "de") {
                    proof {
                        reveal_strlit("de");
                        assert("de"@ =~= seq!['d', 'e']);
                    }
                    Lang::De
                } else {
                    proof {
                        reveal_strlit("de");
                        assert("de"@ =~= seq!['d', 'e']);
                    }
                    Lang::En
                }
            },
            None => Lang::En,
        }
    }

    /// The heading above the thread, e.g. `"3 Kommentare"` or `"1 Comment"`.
    pub fn heading(self, count: usize) -> (r: String)
        ensures
            r@ == heading_text(self, count as nat),
    {
        if count == 1 {
            match self {
                Lang::De => owned("1 Kommentar"),
                Lang::En => owned("1 Comment"),
            }
        } else {
            let mut r = String::new();
            push_decimal(&mut r, count as u64);
            match self {
                Lang::De => r.append(" Kommentare"),
                Lang::En => r.append(" Comments"),
            }
            r
        }
    }

    /// The line shown in place of an empty thread.
    pub fn be_first(self) -> (r: &'static str)
        ensures
            r@ == be_first_text(self),
    {
        match self {
            Lang::De => "Seien Sie der Erste, der kommentiert.",
            Lang::En => "Be the first to comment.",
        }
    }

    /// The title of the comment form.
    pub fn write_comment(self) -> (r: &'static str)
        ensures
            r@ == write_comment_text(self),
    {
        match self {
            Lang::De => "Kommentar schreiben",
            Lang::En => "Write a comment",
        }
    }

    /// The label of a reply link.
    pub fn reply(self) -> (r: &'static str)
        ensures
            r@ == reply_label(self),
    {
        match self {
            Lang::De => "Antworten",
            Lang::En => "Reply",
        }
    }

    /// The label of the name field.
    pub fn name(self) -> (r: &'static str)
        ensures
            r@ == name_label(self),
    {
        match self {
            Lang::De => "Name",
            Lang::En => "Name",
        }
    }

    /// The label of the email field.
    pub fn email(self) -> (r: &'static str)
        ensures
            r@ == email_label(self),
    {
        match self {
            Lang::De => "E-Mail (wird nicht veröffentlicht)",
            Lang::En => "Email (not published)",
        }
    }

    /// The label of the comment field.
    pub fn comment(self) -> (r: &'static str)
        ensures
            r@ == comment_label(self),
    {
        match self {
            Lang::De => "Kommentar",
            Lang::En => "Comment",
        }
    }

    /// The label of the submit button.
    pub fn submit(self) -> (r: &'static str)
        ensures
            r@ == submit_label(self),
    {
        match self {
            Lang::De => "Absenden",
            Lang::En => "Submit",
        }
    }

    /// The strftime pattern for comment dates in this language.
    pub fn date_fmt(self) -> (r: &'static str)
        ensures
            r@ == date_pattern(self),
    {
        match self {
            Lang::De => "%d.%m.%Y %H:%M",
            Lang::En => "%b %-d, %Y %H:%M",
        }
    }

    /// The `(kind, message)` for a status flag, where `kind` is `"ok"` or
    /// `"err"`; `None` for an unknown flag.
    pub fn banner(self, flag: &str) -> (r: Option<(&'static str, &'static str)>)
        ensures
            match r {
                Some((k, m)) => banner_text(self, flag@) == Some((k@, m@)),
                None => banner_text(self, flag@) is None,
            },
    {
        if str_eq(flag, "received") {
            match self {
                Lang::De => Some(
                    ("ok", "Danke! Ihr Kommentar wird nach einer kurzen Prüfung veröffentlicht."),
                ),
                Lang::En => Some(
                    ("ok", "Thanks! Your comment will be published after a quick review."),
                ),
            }
        } else if str_eq(flag, "posted") {
            match self {
                Lang::De => Some(("ok", "Danke für Ihren Kommentar!")),
                Lang::En => Some(("ok", "Thanks for your comment!")),
            }
        } else if str_eq(flag, "captcha") {
            match self {
                Lang::De => Some(
                    (
                        "err",
                        "Bitte bestätigen Sie, dass Sie kein Roboter sind, und senden Sie erneut.",
                    ),
                ),
                Lang::En => Some(
                    ("err", "Please confirm that you are not a robot and submit again."),
                ),
            }
        } else if str_eq(flag, "slow_down") {
            match self {
                Lang::De => Some(
                    (
                        "err",
                        "Zu viele Kommentare in kurzer Zeit. Bitte versuchen Sie es gleich noch einmal.",
                    ),
                ),
                Lang::En => Some(
                    ("err", "Too many comments in a short time. Please try again in a moment."),
                ),
            }
        } else if str_eq(flag, "error") {
            match self {
                Lang::De => Some(
                    (
                        "err",
                        "Ihr Kommentar konnte nicht gespeichert werden. Bitte prüfen Sie Ihre Eingaben.",
                    ),
                ),
                Lang::En => Some(
                    ("err", "Your comment could not be saved. Please check your input."),
                ),
            }
        } else {
            None
        }
    }

    /// Every `(flag, kind, message)` triple of this language, in the order of
    /// `banner_flags`; the page emits them as a lookup table for the browser.
    pub fn banners(self) -> (r: [(&'static str, &'static str, &'static str); 5])
        ensures
            forall|i: int|
                0 <= i < 5 ==> {
                    &&& (#[trigger] r@[i]).0@ == banner_flags()[i]
                    &&& banner_text(self, r@[i].0@) == Some((r@[i].1@, r@[i].2@))
                },
    {
        let (k0, m0) = self.triple("received");
        let (k1, m1) = self.triple("posted");
        let (k2, m2) = self.triple("captcha");
        let (k3, m3) = self.triple("slow_down");
        let (k4, m4) = self.triple("error");
        let r = [
            ("received", k0, m0),
            ("posted", k1, m1),
            ("captcha", k2, m2),
            ("slow_down", k3, m3),
            ("error", k4, m4),
        ];
        r
    }

    fn triple(self, flag: &'static str) -> (r: (&'static str, &'static str))
        requires
            banner_text(self, flag@) is Some,
        ensures
            banner_text(self, flag@) == Some((r.0@, r.1@)),
    {
        match self.banner(flag) {
            Some(t) => t,
            None => ("", ""),
        }
    }
}

/// The banner table and the single lookup agree: a flag has a banner exactly
/// when it is one of the five flags that `banners` lists.
pub proof fn banner_exists_iff_listed(lang: Lang, flag: Seq<char>)
    ensures
        banner_text(lang, flag) is Some <==> banner_flags().contains(flag),
{
    let fl = banner_flags();
    if banner_text(lang, flag) is Some {
        if flag == "received"@ {
            assert(fl[0] == flag);
        } else if flag == "posted"@ {
            assert(fl[1] == flag);
        } else if flag == "captcha"@ {
            assert(fl[2] == flag);
        } else if flag == "slow_down"@ {
            assert(fl[3] == flag);
        } else {
            assert(fl[4] == flag);
        }
    }
}

} // verus!
