//! The operator's settings as the settings form submits them: the captcha
//! provider is normalised and the optional keys are trimmed before saving.

use vstd::prelude::*;
use crate::model::CommentSettings;
use crate::text::{opt_string, owned, str_eq, trim, trimmed, trimmed_is_idempotent};

verus! {

/// The captcha provider as saved: `hcaptcha` and `recaptcha` stay, anything
/// else becomes `none`.
pub open spec fn normalized_provider(p: Seq<char>) -> Seq<char> {
    if p == "hcaptcha"@ || p == "recaptcha"@ {
        p
    } else {
        "none"@
    }
}

/// An optional value as saved: trimmed, and dropped when empty.
pub open spec fn trimmed_opt(o: Option<Seq<char>>) -> Option<Seq<char>> {
    match o {
        Some(s) => if trimmed(s).len() > 0 {
            Some(trimmed(s))
        } else {
            None
        },
        None => None,
    }
}

/// Whether `c` is `s` as it is saved: moderation and email flags kept, the
/// provider normalised, the site key and secret trimmed (empty ones
/// dropped), the notification address and Akismet key kept as given.
pub open spec fn is_cleaned(c: CommentSettings, s: CommentSettings) -> bool {
    &&& c.require_moderation == s.require_moderation
    &&& c.collect_email == s.collect_email
    &&& c.captcha_provider@ == normalized_provider(s.captcha_provider@)
    &&& opt_string(c.captcha_site_key) == trimmed_opt(opt_string(s.captcha_site_key))
    &&& opt_string(c.captcha_secret) == trimmed_opt(opt_string(s.captcha_secret))
    &&& c.notify_email == s.notify_email
    &&& c.akismet_key == s.akismet_key
}

fn trim_opt(o: Option<String>) -> (r: Option<String>)
    ensures
        opt_string(r) == trimmed_opt(opt_string(o)),
{
    match o {
        Some(s) => {
            let t = trim(s.as_str());
            if t.as_str().unicode_len() > 0 {
                Some(t)
            } else {
                None
            }
        },
        None => None,
    }
}

/// The settings as they are saved.
pub fn clean_settings(body: CommentSettings) -> (r: CommentSettings)
    ensures
        is_cleaned(r, body),
{
    let keep = str_eq(body.captcha_provider.as_str(), "hcaptcha") || str_eq(
        body.captcha_provider.as_str(),
        "recaptcha",
    );
    let provider = if keep {
        body.captcha_provider
    } else {
        owned("none")
    };
    CommentSettings {
        require_moderation: body.require_moderation,
        collect_email: body.collect_email,
        captcha_provider: provider,
        captcha_site_key: trim_opt(body.captcha_site_key),
        captcha_secret: trim_opt(body.captcha_secret),
        notify_email: body.notify_email,
        akismet_key: body.akismet_key,
    }
}

/// Saving settings that were already saved changes nothing: cleaning is
/// idempotent.
pub proof fn cleaning_is_idempotent(s: CommentSettings, c1: CommentSettings, c2: CommentSettings)
    requires
        is_cleaned(c1, s),
        is_cleaned(c2, c1),
    ensures
        c2.require_moderation == c1.require_moderation,
        c2.collect_email == c1.collect_email,
        c2.captcha_provider@ == c1.captcha_provider@,
        opt_string(c2.captcha_site_key) == opt_string(c1.captcha_site_key),
        opt_string(c2.captcha_secret) == opt_string(c1.captcha_secret),
        c2.notify_email == c1.notify_email,
        c2.akismet_key == c1.akismet_key,
{
    reveal_strlit("none");
    reveal_strlit("hcaptcha");
    reveal_strlit("recaptcha");
    match opt_string(s.captcha_site_key) {
        Some(k) => trimmed_is_idempotent(k),
        None => {},
    }
    match opt_string(s.captcha_secret) {
        Some(k) => trimmed_is_idempotent(k),
        None => {},
    }
}

/// Saving keeps the operator's choices: whether comments are moderated,
/// whether email is asked for, the notification address and the Akismet key
/// are saved as given, and a supported captcha provider is kept while any
/// other value turns the captcha off.
pub proof fn cleaning_keeps_the_operators_choices(c: CommentSettings, s: CommentSettings)
    requires
        is_cleaned(c, s),
    ensures
        c.require_moderation == s.require_moderation,
        c.collect_email == s.collect_email,
        c.notify_email == s.notify_email,
        c.akismet_key == s.akismet_key,
        s.captcha_provider@ == "hcaptcha"@ ==> c.captcha_provider@ == "hcaptcha"@,
        s.captcha_provider@ == "recaptcha"@ ==> c.captcha_provider@ == "recaptcha"@,
        s.captcha_provider@ != "hcaptcha"@ && s.captcha_provider@ != "recaptcha"@
            ==> c.captcha_provider@ == "none"@,
{
}


} // verus!
