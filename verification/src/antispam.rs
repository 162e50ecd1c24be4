//! Spam defences, layered so the comment section is safe out of the box: a
//! honeypot field and a submit time-trap catch naive bots, moderation by
//! default keeps anything unverified off the page, and an optional captcha
//! or Akismet check adds a real challenge when the operator configures one.

use std::time::{Duration, SystemTime};
use vstd::prelude::*;
use crate::model::CommentSettings;
use crate::numbers::{parse_u128, parsed_unsigned};
use crate::text::{
    before_first, opt_str, opt_string, owned, prefix_before, str_eq, trim, trimmed,
};

verus! {

// ---------------------------------------------------------------------------
// Honeypot and time-trap
// ---------------------------------------------------------------------------

/// Whether a bot filled in the hidden honeypot field: it holds something
/// other than white space.
pub open spec fn honeypot_filled(honeypot: Option<Seq<char>>) -> bool {
    match honeypot {
        Some(h) => trimmed(h).len() > 0,
        None => false,
    }
}

/// A bot filled the hidden honeypot field a human never sees.
pub fn honeypot_tripped(honeypot: Option<&str>) -> (r: bool)
    ensures
        r == honeypot_filled(opt_str(honeypot)),
{
    match honeypot {
        Some(h) => {
            let t = trim(h);
            t.as_str().unicode_len() > 0
        },
        None => false,
    }
}

/// The millisecond timestamp a form carries, when it reads as a `u128`
/// after trimming.
pub open spec fn form_timestamp(ts: Option<Seq<char>>) -> Option<int> {
    match ts {
        Some(s) => parsed_unsigned(trimmed(s), u128::MAX as int),
        None => None,
    }
}

/// Whether a form stamped at `ts` and submitted at `now_ms` (both in
/// milliseconds) came back in under `min_secs` seconds. Missing or garbled
/// stamps never count as too fast, so visitors without scripts are never
/// blocked; a stamp in the future counts as no time elapsed.
pub open spec fn submitted_too_fast(ts: Option<Seq<char>>, min_secs: int, now_ms: int) -> bool {
    match form_timestamp(ts) {
        Some(t) => (if now_ms >= t {
            now_ms - t
        } else {
            0
        }) < min_secs * 1000,
        None => false,
    }
}

/// The time-trap against a given clock reading.
pub fn too_fast_at(ts: Option<&str>, min_secs: u64, now_ms: u128) -> (r: bool)
    ensures
        r == submitted_too_fast(opt_str(ts), min_secs as int, now_ms as int),
{
    let parsed = match ts {
        Some(s) => {
            let t = trim(s);
            parse_u128(t.as_str())
        },
        None => None,
    };
    match parsed {
        Some(t) => now_ms.saturating_sub(t) < (min_secs as u128) * 1000,
        None => false,
    }
}

#[verifier::external_type_specification]
#[verifier::external_body]
pub struct ExSystemTime(SystemTime);

/// The current time (`SystemTime::now`). Nothing is promised of the reading.
#[verifier::external_body]
fn system_now() -> SystemTime {
    SystemTime::now()
}

/// The time elapsed since the Unix epoch (`SystemTime::duration_since`), or
/// `None` for a time before it. Nothing is promised of the duration.
#[verifier::external_body]
fn since_unix_epoch(t: &SystemTime) -> Option<Duration> {
    t.duration_since(std::time::UNIX_EPOCH).ok()
}

/// Whole milliseconds of a duration (`Duration::as_millis`). Nothing is
/// promised of the number, since the duration is opaque here.
#[verifier::external_body]
fn duration_millis(d: &Duration) -> u128 {
    d.as_millis()
}

/// Whether `ms` is a reading of the system clock in whole milliseconds since
/// the Unix epoch: what `Duration::as_millis` returns for the time that a
/// reading of `SystemTime::now` lies past the epoch, or 0 for a clock set
/// before 1970.
pub closed spec fn is_clock_reading_ms(ms: u128) -> bool {
    exists|t: SystemTime|
        #![trigger call_ensures(system_now, (), t)]
        call_ensures(system_now, (), t) && is_ms_since_epoch(t, ms)
}

/// Whether `ms` is the time of `t` past the Unix epoch in whole
/// milliseconds, as `duration_since` and `Duration::as_millis` report it, or
/// 0 for a time before the epoch.
closed spec fn is_ms_since_epoch(t: SystemTime, ms: u128) -> bool {
    ||| exists|d: Duration|
        #![trigger call_ensures(duration_millis, (&d,), ms)]
        call_ensures(since_unix_epoch, (&t,), Some(d)) && call_ensures(duration_millis, (&d,), ms)
    ||| call_ensures(since_unix_epoch, (&t,), None::<Duration>) && ms == 0
}

/// The form was submitted implausibly fast. `ts` is a millisecond timestamp
/// the form stamps on load (client clock); missing or garbled values are
/// treated as fine so visitors without scripts are never blocked. The
/// verdict is that of `too_fast_at` for a reading of the system clock in
/// milliseconds since the Unix epoch.
pub fn too_fast(ts: Option<&str>, min_secs: u64) -> (r: bool)
    ensures
        form_timestamp(opt_str(ts)) is None ==> !r,
        exists|now_ms: u128|
            #![trigger is_clock_reading_ms(now_ms)]
            is_clock_reading_ms(now_ms) && r == submitted_too_fast(
                opt_str(ts),
                min_secs as int,
                now_ms as int,
            ),
{
    let now = system_now();
    let since = since_unix_epoch(&now);
    let now_ms: u128 = match since {
        Some(d) => {
            let ms = duration_millis(&d);
            assert(call_ensures(since_unix_epoch, (&now,), Some(d)) && call_ensures(
                duration_millis,
                (&d,),
                ms,
            ));
            ms
        },
        None => {
            assert(call_ensures(since_unix_epoch, (&now,), None::<Duration>));
            0
        },
    };
    assert(is_ms_since_epoch(now, now_ms));
    assert(call_ensures(system_now, (), now));
    assert(is_clock_reading_ms(now_ms));
    too_fast_at(ts, min_secs, now_ms)
}

/// The time-trap measures in milliseconds: a form stamped at least
/// `min_secs` seconds before the clock reading is never too fast, one stamped
/// less than that before it (or after it) always is, and a form without a
/// readable stamp never is.
pub proof fn time_trap_window(ts: Option<Seq<char>>, min_secs: int, now_ms: int)
    ensures
        form_timestamp(ts) is None ==> !submitted_too_fast(ts, min_secs, now_ms),
        forall|t: int|
            form_timestamp(ts) == Some(t) ==> (submitted_too_fast(ts, min_secs, now_ms) <==> now_ms
                < t + min_secs * 1000 && min_secs > 0 || t > now_ms && min_secs > 0),
{
}

// ---------------------------------------------------------------------------
// Client address
// ---------------------------------------------------------------------------

/// The client address reported by the proxy headers: the first entry of
/// `X-Forwarded-For` when that header is present, else `X-Real-IP`; trimmed,
/// and `None` when empty or the loopback address.
pub open spec fn client_ip_of(forwarded_for: Option<Seq<char>>, real_ip: Option<Seq<char>>) -> Option<
    Seq<char>,
> {
    let raw = match forwarded_for {
        Some(v) => Some(before_first(v, ',')),
        None => real_ip,
    };
    match raw {
        Some(r) => {
            let t = trimmed(r);
            if t.len() == 0 || t == "127.0.0.1"@ || t == "::1"@ {
                None
            } else {
                Some(t)
            }
        },
        None => None,
    }
}

/// Best-effort real client IP from the text of the `X-Forwarded-For` and
/// `X-Real-IP` headers (`None` for a header that is absent or not text).
/// Returns `None` when the client cannot be identified (loopback or empty).
pub fn client_ip(forwarded_for: Option<&str>, real_ip: Option<&str>) -> (r: Option<String>)
    ensures
        opt_string(r) == client_ip_of(opt_str(forwarded_for), opt_str(real_ip)),
{
    let raw: Option<String> = match forwarded_for {
        Some(v) => Some(prefix_before(v, ',')),
        None => match real_ip {
            Some(v) => Some(owned(v)),
            None => None,
        },
    };
    match raw {
        Some(r) => {
            let t = trim(r.as_str());
            if t.as_str().unicode_len() == 0 || str_eq(t.as_str(), "127.0.0.1") || str_eq(
                t.as_str(),
                "::1",
            ) {
                None
            } else {
                Some(t)
            }
        },
        None => None,
    }
}

// ---------------------------------------------------------------------------
// Form encoding
// ---------------------------------------------------------------------------

/// Bytes that URL encoding keeps as they are: ASCII letters and digits and
/// `-`, `.`, `_`, `~`.
pub open spec fn is_unreserved_byte(b: u8) -> bool {
    ||| 48 <= b <= 57
    ||| 65 <= b <= 90
    ||| 97 <= b <= 122
    ||| b == 45
    ||| b == 46
    ||| b == 95
    ||| b == 126
}

/// The upper-case hexadecimal digit for `d < 16`.
pub open spec fn hex_digit(d: int) -> char {
    if d < 10 {
        (48 + d) as char
    } else {
        (55 + d) as char
    }
}

/// The URL encoding of one byte: itself when unreserved, else `%XX`.
pub open spec fn percent_encoded_byte(b: u8) -> Seq<char> {
    if is_unreserved_byte(b) {
        seq![b as char]
    } else {
        seq!['%', hex_digit((b / 16) as int), hex_digit((b % 16) as int)]
    }
}

/// The URL encoding of a byte string.
pub open spec fn percent_encoded(bytes: Seq<u8>) -> Seq<char>
    decreases bytes.len(),
{
    if bytes.len() == 0 {
        Seq::empty()
    } else {
        percent_encoded_byte(bytes[0]) + percent_encoded(bytes.drop_first())
    }
}

/// The URL encoding of a string's UTF-8 bytes.
pub open spec fn url_encoded(s: Seq<char>) -> Seq<char> {
    percent_encoded(vstd::utf8::encode_utf8(s))
}

/// `urlencoding::encode`: percent-encodes every byte of the UTF-8 encoding
/// of `s` except ASCII letters, digits and `-`, `.`, `_`, `~`, with
/// upper-case hexadecimal digits, as its documentation and source state.
#[verifier::external_body]
pub(crate) fn url_encode(s: &str) -> (r: String)
    ensures
        r@ == url_encoded(s@),
{
    urlencoding::encode(s).into_owned()
}

// ---------------------------------------------------------------------------
// Captcha
// ---------------------------------------------------------------------------

/// What a submission's captcha check comes to before any request is made.
#[derive(Debug)]
pub enum CaptchaCheck {
    /// No captcha applies: none is configured, or a provider is selected but
    /// has no secret yet (a misconfiguration must not reject every visitor).
    Pass,
    /// A captcha applies but the form carries no response to it.
    Fail,
    /// Post `form` to `url`; the provider's `success` answer decides.
    Verify { url: String, form: String },
}

/// The verification endpoint of a captcha provider.
pub open spec fn captcha_endpoint(provider: Seq<char>) -> Option<Seq<char>> {
    if provider == "hcaptcha"@ {
        Some("https://api.hcaptcha.com/siteverify"@)
    } else if provider == "recaptcha"@ {
        Some("https://www.google.com/recaptcha/api/siteverify"@)
    } else {
        None
    }
}

/// A non-empty optional string, else `None`.
pub open spec fn non_empty(o: Option<Seq<char>>) -> Option<Seq<char>> {
    match o {
        Some(s) => if s.len() > 0 {
            Some(s)
        } else {
            None
        },
        None => None,
    }
}

/// The captcha check for the configured provider and the response tokens
/// the form carries.
pub open spec fn captcha_check_spec(
    provider: Seq<char>,
    secret: Option<Seq<char>>,
    hcaptcha: Option<Seq<char>>,
    recaptcha: Option<Seq<char>>,
) -> Option<Option<(Seq<char>, Seq<char>)>> {
    // None: pass; Some(None): fail; Some(Some((url, form))): verify.
    match captcha_endpoint(provider) {
        None => None,
        Some(url) => match non_empty(secret) {
            None => None,
            Some(sec) => {
                let response = if provider == "hcaptcha"@ {
                    hcaptcha
                } else {
                    recaptcha
                };
                match non_empty(response) {
                    None => Some(None),
                    Some(resp) => Some(
                        Some(
                            (
                                url,
                                "secret="@ + url_encoded(sec) + "&response="@ + url_encoded(resp),
                            ),
                        ),
                    ),
                }
            },
        },
    }
}

/// Whether `check` is what `captcha_check_spec` prescribes.
pub open spec fn captcha_check_is(
    check: CaptchaCheck,
    expected: Option<Option<(Seq<char>, Seq<char>)>>,
) -> bool {
    match check {
        CaptchaCheck::Pass => expected is None,
        CaptchaCheck::Fail => expected == Some(None::<(Seq<char>, Seq<char>)>),
        CaptchaCheck::Verify { url, form } => expected == Some(Some((url@, form@))),
    }
}

/// A captcha response is verified at its own provider: an hCaptcha token at
/// hCaptcha's `siteverify`, a reCAPTCHA token at Google's, never the one at
/// the other's endpoint; and the token sent is the one the form carried for
/// the configured provider, with the operator's secret.
pub proof fn captcha_verified_at_its_provider(
    provider: Seq<char>,
    secret: Option<Seq<char>>,
    hcaptcha: Option<Seq<char>>,
    recaptcha: Option<Seq<char>>,
)
    ensures
        captcha_check_spec(provider, secret, hcaptcha, recaptcha) matches Some(Some((url, form))) ==> {
            &&& provider == "hcaptcha"@ ==> (url == "https://api.hcaptcha.com/siteverify"@
                && hcaptcha is Some && form == "secret="@ + url_encoded(secret->0) + "&response="@
                + url_encoded(hcaptcha->0))
            &&& provider == "recaptcha"@ ==> (url
                == "https://www.google.com/recaptcha/api/siteverify"@ && recaptcha is Some && form
                == "secret="@ + url_encoded(secret->0) + "&response="@ + url_encoded(recaptcha->0))
            &&& provider == "hcaptcha"@ || provider == "recaptcha"@
        },
        "https://api.hcaptcha.com/siteverify"@ != "https://www.google.com/recaptcha/api/siteverify"@,
{
    reveal_strlit("https://api.hcaptcha.com/siteverify");
    reveal_strlit("https://www.google.com/recaptcha/api/siteverify");
    reveal_strlit("hcaptcha");
    reveal_strlit("recaptcha");
    assert("hcaptcha"@[0] != "recaptcha"@[0]);
    assert("https://api.hcaptcha.com/siteverify"@[8] != "https://www.google.com/recaptcha/api/siteverify"@[8]);
}

/// The captcha fails open on a misconfiguration: a provider without a
/// secret lets every submission through, as does having no provider.
pub proof fn captcha_passes_without_secret(
    provider: Seq<char>,
    secret: Option<Seq<char>>,
    hcaptcha: Option<Seq<char>>,
    recaptcha: Option<Seq<char>>,
)
    requires
        non_empty(secret) is None || captcha_endpoint(provider) is None,
    ensures
        captcha_check_spec(provider, secret, hcaptcha, recaptcha) is None,
{
}

/// The string of an option, unless it is absent or empty.
pub(crate) fn non_empty_str(o: &Option<String>) -> (r: Option<&str>)
    ensures
        opt_str(r) == non_empty(opt_string(*o)),
{
    match o {
        Some(s) => if s.as_str().unicode_len() > 0 {
            Some(s.as_str())
        } else {
            None
        },
        None => None,
    }
}

/// Decides the captcha step of a submission: pass when no captcha is
/// configured or its secret is missing, fail when the form lacks the
/// provider's response, else the request that verifies the response.
pub fn captcha_check(settings: &CommentSettings, hcaptcha: Option<&str>, recaptcha: Option<&str>) -> (r:
    CaptchaCheck)
    ensures
        captcha_check_is(
            r,
            captcha_check_spec(
                settings.captcha_provider@,
                opt_string(settings.captcha_secret),
                opt_str(hcaptcha),
                opt_str(recaptcha),
            ),
        ),
{
    let provider = settings.captcha_provider.as_str();
    let is_h = str_eq(provider, "hcaptcha");
    let is_r = str_eq(provider, "recaptcha");
    if !is_h && !is_r {
        return CaptchaCheck::Pass;
    }
    let url = if is_h {
        owned("https://api.hcaptcha.com/siteverify")
    } else {
        owned("https://www.google.com/recaptcha/api/siteverify")
    };
    let response = if is_h {
        hcaptcha
    } else {
        recaptcha
    };
    let secret = match non_empty_str(&settings.captcha_secret) {
        Some(s) => s,
        None => {
            return CaptchaCheck::Pass;
        },
    };
    let response = match response {
        Some(r) => if r.unicode_len() > 0 {
            r
        } else {
            return CaptchaCheck::Fail;
        },
        None => {
            return CaptchaCheck::Fail;
        },
    };
    let mut form = owned("secret=");
    form.append(url_encode(secret).as_str());
    form.append("&response=");
    form.append(url_encode(response).as_str());
    CaptchaCheck::Verify { url, form }
}

// ---------------------------------------------------------------------------
// Akismet
// ---------------------------------------------------------------------------

/// A `comment-check` request to Akismet.
#[derive(Debug)]
pub struct AkismetRequest {
    pub url: String,
    pub form: String,
}

/// The Akismet endpoint for an API key.
pub open spec fn akismet_url(key: Seq<char>) -> Seq<char> {
    "https://"@ + key + ".rest.akismet.com/1.1/comment-check"@
}

/// The form Akismet is asked about a comment with.
pub open spec fn akismet_form(
    blog: Seq<char>,
    user_ip: Seq<char>,
    user_agent: Seq<char>,
    author: Seq<char>,
    email: Option<Seq<char>>,
    content: Seq<char>,
) -> Seq<char> {
    let base = "blog="@ + url_encoded(blog) + "&user_ip="@ + url_encoded(user_ip) + "&user_agent="@
        + url_encoded(user_agent) + "&comment_type=comment&comment_author="@ + url_encoded(author)
        + "&comment_content="@ + url_encoded(content);
    match email {
        Some(e) => base + "&comment_author_email="@ + url_encoded(e),
        None => base,
    }
}

/// The request that asks Akismet whether a comment is spam. `blog` is the
/// site URL Akismet keys on.
pub fn akismet_request(
    key: &str,
    blog: &str,
    user_ip: &str,
    user_agent: &str,
    author: &str,
    email: Option<&str>,
    content: &str,
) -> (r: AkismetRequest)
    ensures
        r.url@ == akismet_url(key@),
        r.form@ == akismet_form(blog@, user_ip@, user_agent@, author@, opt_str(email), content@),
{
    let mut form = owned("blog=");
    form.append(url_encode(blog).as_str());
    form.append("&user_ip=");
    form.append(url_encode(user_ip).as_str());
    form.append("&user_agent=");
    form.append(url_encode(user_agent).as_str());
    form.append("&comment_type=comment&comment_author=");
    form.append(url_encode(author).as_str());
    form.append("&comment_content=");
    form.append(url_encode(content).as_str());
    if let Some(e) = email {
        form.append("&comment_author_email=");
        form.append(url_encode(e).as_str());
    }
    let mut url = owned("https://");
    url.append(key);
    url.append(".rest.akismet.com/1.1/comment-check");
    AkismetRequest { url, form }
}

/// Akismet's answer to `comment-check`: the body `true` (around white
/// space) means spam, anything else means ham.
pub fn akismet_verdict(body: &str) -> (r: bool)
    ensures
        r == (trimmed(body@) == "true"@),
{
    let t = trim(body);
    str_eq(t.as_str(), "true")
}

} // verus!
