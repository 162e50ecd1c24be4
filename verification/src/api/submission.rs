//! Comment submission: the checks on the submitted form, and the protocol
//! that takes a checked submission through the lookups, the spam defences,
//! storage and the notifications. Each step decides from the flow's state
//! and the outcome of the previous outside operation (a query, a captcha or
//! Akismet request) what to do next; the caller performs that and reports
//! back.

use vstd::prelude::*;
use crate::antispam::{
    akismet_form, akismet_request, akismet_url, honeypot_filled, honeypot_tripped,
    is_clock_reading_ms, non_empty, non_empty_str, submitted_too_fast, too_fast, too_fast_at, AkismetRequest,
};
use crate::api::public::CommentForm;
use crate::model::CommentSettings;
use crate::numbers::{parse_i32, parse_i64, parsed_signed};
use crate::text::{
    chars_of, contains_char, copy_opt, opt_string, owned, string_of_range, trim, trimmed,
};
use crate::utils::{escaped, push_escaped};

verus! {

// ---------------------------------------------------------------------------
// Flags and statuses
// ---------------------------------------------------------------------------

/// How a submission ended, reported back to the visitor as `?comment=<flag>`.
#[derive(Clone, Copy, Debug, PartialEq, Eq, Structural)]
pub enum SubmitFlag {
    /// Stored and waiting for moderation (also shown to bots, and for spam).
    Received,
    /// Stored and published right away.
    Posted,
    /// The captcha was not solved.
    Captcha,
    /// Too many comments recently, or the form came back too fast.
    SlowDown,
    /// The submission was invalid or could not be stored.
    Error,
}

/// The text of a flag in the redirect.
pub open spec fn flag_code(f: SubmitFlag) -> Seq<char> {
    match f {
        SubmitFlag::Received => "received"@,
        SubmitFlag::Posted => "posted"@,
        SubmitFlag::Captcha => "captcha"@,
        SubmitFlag::SlowDown => "slow_down"@,
        SubmitFlag::Error => "error"@,
    }
}

impl SubmitFlag {
    /// The text of the flag, as the banner looks it up.
    pub fn code(self) -> (r: &'static str)
        ensures
            r@ == flag_code(self),
    {
        match self {
            SubmitFlag::Received => "received",
            SubmitFlag::Posted => "posted",
            SubmitFlag::Captcha => "captcha",
            SubmitFlag::SlowDown => "slow_down",
            SubmitFlag::Error => "error",
        }
    }
}

/// The moderation status of a stored comment.
#[derive(Clone, Copy, Debug, PartialEq, Eq, Structural)]
pub enum CommentStatus {
    Pending,
    Approved,
    Spam,
}

/// The text of a status as the database stores it.
pub open spec fn status_code(s: CommentStatus) -> Seq<char> {
    match s {
        CommentStatus::Pending => "pending"@,
        CommentStatus::Approved => "approved"@,
        CommentStatus::Spam => "spam"@,
    }
}

impl CommentStatus {
    /// The text of the status.
    pub fn code(self) -> (r: &'static str)
        ensures
            r@ == status_code(self),
    {
        match self {
            CommentStatus::Pending => "pending",
            CommentStatus::Approved => "approved",
            CommentStatus::Spam => "spam",
        }
    }
}

/// The status a new comment gets unless Akismet flags it: pending when the
/// operator moderates comments, else approved.
pub open spec fn base_status(require_moderation: bool) -> CommentStatus {
    if require_moderation {
        CommentStatus::Pending
    } else {
        CommentStatus::Approved
    }
}

/// The flag a stored comment is reported with: `posted` only when it was
/// published right away.
pub open spec fn stored_flag(s: CommentStatus) -> SubmitFlag {
    if s == CommentStatus::Approved {
        SubmitFlag::Posted
    } else {
        SubmitFlag::Received
    }
}

// ---------------------------------------------------------------------------
// Checking the form
// ---------------------------------------------------------------------------

/// A submission whose fields passed the form checks.
#[derive(Debug)]
pub struct Submission {
    pub post_id: i32,
    pub parent_id: Option<i64>,
    pub author_name: String,
    pub author_email: Option<String>,
    pub body: String,
}

/// The fields of a submission, by view.
pub open spec fn submission_view(s: Submission) -> (i32, Option<i64>, Seq<char>, Option<Seq<char>>, Seq<char>) {
    (s.post_id, s.parent_id, s.author_name@, opt_string(s.author_email), s.body@)
}

/// A form field's text, empty when missing.
pub open spec fn field_text(o: Option<Seq<char>>) -> Seq<char> {
    match o {
        Some(s) => s,
        None => Seq::empty(),
    }
}

/// The post a form targets: a positive `i32` after trimming.
pub open spec fn submitted_post(o: Option<Seq<char>>) -> Option<i32> {
    match o {
        Some(s) => match parsed_signed(trimmed(s), i32::MIN as int, i32::MAX as int) {
            Some(v) => if v > 0 {
                Some(v as i32)
            } else {
                None
            },
            None => None,
        },
        None => None,
    }
}

/// The comment a reply answers: a positive `i64` after trimming, else none.
pub open spec fn submitted_parent(o: Option<Seq<char>>) -> Option<i64> {
    match o {
        Some(s) => match parsed_signed(trimmed(s), i64::MIN as int, i64::MAX as int) {
            Some(v) => if v > 0 {
                Some(v as i64)
            } else {
                None
            },
            None => None,
        },
        None => None,
    }
}

/// The author's email: kept, trimmed, when it has an `@` and at most 254
/// characters; dropped otherwise.
pub open spec fn submitted_email(o: Option<Seq<char>>) -> Option<Seq<char>> {
    match o {
        Some(e) => {
            let t = trimmed(e);
            if t.contains('@') && t.len() <= 254 && t.len() > 0 {
                Some(t)
            } else {
                None
            }
        },
        None => None,
    }
}

/// The outcome of the field checks: an invalid post id, an empty name or
/// body, a name over 120 or a body over 5000 characters is an error; the
/// email is kept only when plausible and the parent only when a positive id.
pub open spec fn checked_fields(form: CommentForm) -> Result<
    (i32, Option<i64>, Seq<char>, Option<Seq<char>>, Seq<char>),
    SubmitFlag,
> {
    match submitted_post(opt_string(form.post_id)) {
        None => Err(SubmitFlag::Error),
        Some(post_id) => {
            let name = trimmed(field_text(opt_string(form.author_name)));
            let body = trimmed(field_text(opt_string(form.body)));
            if name.len() == 0 || body.len() == 0 || name.len() > 120 || body.len() > 5000 {
                Err(SubmitFlag::Error)
            } else {
                Ok(
                    (
                        post_id,
                        submitted_parent(opt_string(form.parent_id)),
                        name,
                        submitted_email(opt_string(form.author_email)),
                        body,
                    ),
                )
            }
        },
    }
}

/// The outcome of all form checks at clock reading `now_ms`: a tripped
/// honeypot looks successful but stores nothing, a form back within 2 s is
/// told to slow down, then the fields are checked.
pub open spec fn checked_submission(form: CommentForm, now_ms: int) -> Result<
    (i32, Option<i64>, Seq<char>, Option<Seq<char>>, Seq<char>),
    SubmitFlag,
> {
    if honeypot_filled(opt_string(form.website)) {
        Err(SubmitFlag::Received)
    } else if submitted_too_fast(opt_string(form.ts), 2, now_ms) {
        Err(SubmitFlag::SlowDown)
    } else {
        checked_fields(form)
    }
}

/// Whether `r` is the outcome `expected`.
pub open spec fn check_outcome_is(
    r: Result<Submission, SubmitFlag>,
    expected: Result<(i32, Option<i64>, Seq<char>, Option<Seq<char>>, Seq<char>), SubmitFlag>,
) -> bool {
    match r {
        Ok(s) => expected == Ok::<_, SubmitFlag>(submission_view(s)),
        Err(f) => expected == Err::<(i32, Option<i64>, Seq<char>, Option<Seq<char>>, Seq<char>), _>(f),
    }
}

fn field_or_empty(o: &Option<String>) -> (r: &str)
    ensures
        r@ == field_text(opt_string(*o)),
{
    match o {
        Some(s) => s.as_str(),
        None => {
            proof {
                reveal_strlit("");
            }
            ""
        },
    }
}

/// Checks the fields of a submitted form.
pub fn check_fields(form: &CommentForm) -> (r: Result<Submission, SubmitFlag>)
    ensures
        check_outcome_is(r, checked_fields(*form)),
{
    let post_id = match &form.post_id {
        Some(p) => {
            let t = trim(p.as_str());
            match parse_i32(t.as_str()) {
                Some(id) => if id > 0 {
                    id
                } else {
                    return Err(SubmitFlag::Error);
                },
                None => {
                    return Err(SubmitFlag::Error);
                },
            }
        },
        None => {
            return Err(SubmitFlag::Error);
        },
    };
    let name = trim(field_or_empty(&form.author_name));
    let body = trim(field_or_empty(&form.body));
    let name_len = name.as_str().unicode_len();
    let body_len = body.as_str().unicode_len();
    if name_len == 0 || body_len == 0 || name_len > 120 || body_len > 5000 {
        return Err(SubmitFlag::Error);
    }
    let email = match &form.author_email {
        Some(e) => {
            let t = trim(e.as_str());
            let n = t.as_str().unicode_len();
            if contains_char(t.as_str(), '@') && n <= 254 && n > 0 {
                Some(t)
            } else {
                None
            }
        },
        None => None,
    };
    let parent_id = match &form.parent_id {
        Some(p) => {
            let t = trim(p.as_str());
            match parse_i64(t.as_str()) {
                Some(id) => if id > 0 {
                    Some(id)
                } else {
                    None
                },
                None => None,
            }
        },
        None => None,
    };
    Ok(Submission { post_id, parent_id, author_name: name, author_email: email, body })
}

/// Checks a submitted form against clock reading `now_ms`.
pub fn check_submission_at(form: &CommentForm, now_ms: u128) -> (r: Result<Submission, SubmitFlag>)
    ensures
        check_outcome_is(r, checked_submission(*form, now_ms as int)),
{
    if honeypot_tripped(crate::text::opt_as_str(&form.website)) {
        return Err(SubmitFlag::Received);
    }
    if too_fast_at(crate::text::opt_as_str(&form.ts), 2, now_ms) {
        return Err(SubmitFlag::SlowDown);
    }
    check_fields(form)
}

/// Checks a submitted form: honeypot, time-trap (2 s, against the system
/// clock), post id, and the name, body and email fields. The outcome is that
/// of `checked_submission` for the clock's reading.
pub fn check_submission(form: &CommentForm) -> (r: Result<Submission, SubmitFlag>)
    ensures
        exists|now_ms: u128| check_outcome_is(r, #[trigger] checked_submission(*form, now_ms as int)),
        !honeypot_filled(opt_string(form.website)) ==> exists|now_ms: u128|
            #![trigger is_clock_reading_ms(now_ms)]
            is_clock_reading_ms(now_ms) && check_outcome_is(
                r,
                checked_submission(*form, now_ms as int),
            ),
{
    if honeypot_tripped(crate::text::opt_as_str(&form.website)) {
        assert(check_outcome_is(
            Err::<Submission, _>(SubmitFlag::Received),
            checked_submission(*form, 0),
        ));
        return Err(SubmitFlag::Received);
    }
    let fast = too_fast(crate::text::opt_as_str(&form.ts), 2);
    let ghost now_ms = choose|now_ms: u128|
        is_clock_reading_ms(now_ms) && fast == submitted_too_fast(
            opt_string(form.ts),
            2,
            now_ms as int,
        );
    let r = if fast {
        Err(SubmitFlag::SlowDown)
    } else {
        check_fields(form)
    };
    assert(check_outcome_is(r, checked_submission(*form, now_ms as int)));
    r
}

// ---------------------------------------------------------------------------
// Notifications
// ---------------------------------------------------------------------------

/// An email to send.
#[derive(Debug)]
pub struct Notification {
    pub to: String,
    pub subject: String,
    pub html: String,
}

/// The first 400 characters of a comment, escaped, as emails quote it.
pub open spec fn snippet_html(body: Seq<char>) -> Seq<char> {
    escaped(
        if body.len() <= 400 {
            body
        } else {
            body.take(400)
        },
    )
}

/// The email to the moderator address about a new comment on the post
/// titled `title`; none when no address is configured.
pub open spec fn moderator_notification_spec(
    notify_email: Option<Seq<char>>,
    title: Seq<char>,
    author: Seq<char>,
    body: Seq<char>,
) -> Option<(Seq<char>, Seq<char>, Seq<char>)> {
    match non_empty(notify_email) {
        Some(to) => Some(
            (
                to,
                "Neuer Kommentar: "@ + title,
                "<p>Ein neuer Kommentar von <strong>"@ + escaped(author) + "</strong> zu „"@
                    + escaped(title) + "“ wartet auf Freigabe.</p><blockquote>"@ + snippet_html(
                    body,
                ) + "</blockquote>"@,
            ),
        ),
        None => None,
    }
}

/// The email to the author of the comment being answered; none when they
/// left no address.
pub open spec fn reply_notification_spec(
    to: Option<Seq<char>>,
    title: Seq<char>,
    author: Seq<char>,
    body: Seq<char>,
) -> Option<(Seq<char>, Seq<char>, Seq<char>)> {
    match non_empty(to) {
        Some(to) => Some(
            (
                to,
                "Neue Antwort auf Ihren Kommentar: "@ + title,
                "<p><strong>"@ + escaped(author) + "</strong> hat auf Ihren Kommentar zu „"@
                    + escaped(title) + "“ geantwortet:</p><blockquote>"@ + snippet_html(body)
                    + "</blockquote>"@,
            ),
        ),
        None => None,
    }
}

/// Whether `n` is the notification `expected`, by view.
pub open spec fn notification_is(
    n: Option<Notification>,
    expected: Option<(Seq<char>, Seq<char>, Seq<char>)>,
) -> bool {
    match n {
        Some(n) => expected == Some((n.to@, n.subject@, n.html@)),
        None => expected is None,
    }
}

fn push_snippet(out: &mut String, body: &str)
    ensures
        final(out)@ == old(out)@ + snippet_html(body@),
{
    let x = chars_of(body);
    let n = if x.len() <= 400 {
        x.len()
    } else {
        400
    };
    let cut = string_of_range(x.as_slice(), 0, n);
    assert(cut@ =~= (if body@.len() <= 400 {
        body@
    } else {
        body@.take(400)
    }));
    push_escaped(out, cut.as_str());
}

/// The email to the moderator about a new comment.
pub fn moderator_notification(
    notify_email: &Option<String>,
    title: &str,
    author: &str,
    body: &str,
) -> (r: Option<Notification>)
    ensures
        notification_is(r, moderator_notification_spec(opt_string(*notify_email), title@, author@, body@)),
{
    let to = match non_empty_str(notify_email) {
        Some(t) => owned(t),
        None => {
            return None;
        },
    };
    let mut subject = owned("Neuer Kommentar: ");
    subject.append(title);
    let mut html = owned("<p>Ein neuer Kommentar von <strong>");
    push_escaped(&mut html, author);
    html.append("</strong> zu „");
    push_escaped(&mut html, title);
    html.append("“ wartet auf Freigabe.</p><blockquote>");
    push_snippet(&mut html, body);
    html.append("</blockquote>");
    Some(Notification { to, subject, html })
}

/// The email to the author of the comment being answered.
pub fn reply_notification(to: &Option<String>, title: &str, author: &str, body: &str) -> (r: Option<
    Notification,
>)
    ensures
        notification_is(r, reply_notification_spec(opt_string(*to), title@, author@, body@)),
{
    let to = match non_empty_str(to) {
        Some(t) => owned(t),
        None => {
            return None;
        },
    };
    let mut subject = owned("Neue Antwort auf Ihren Kommentar: ");
    subject.append(title);
    let mut html = owned("<p><strong>");
    push_escaped(&mut html, author);
    html.append("</strong> hat auf Ihren Kommentar zu „");
    push_escaped(&mut html, title);
    html.append("“ geantwortet:</p><blockquote>");
    push_snippet(&mut html, body);
    html.append("</blockquote>");
    Some(Notification { to, subject, html })
}

// ---------------------------------------------------------------------------
// The submission protocol
// ---------------------------------------------------------------------------

/// Comments from one address in this many seconds are counted...
pub const RATE_WINDOW_SECS: i32 = 60;

/// ...and at this many the address must slow down.
pub const PER_IP_LIMIT: i64 = 5;

/// Comments from everyone in the window at which everyone must slow down.
pub const GLOBAL_LIMIT: i64 = 30;

/// What the flow waits for.
#[derive(Clone, Copy, Debug, PartialEq, Eq, Structural)]
pub enum SubmitStage {
    /// The public post the comment targets.
    AwaitPost,
    /// Whether the parent is an approved comment on the same post.
    AwaitParent,
    /// The operator's settings.
    AwaitSettings,
    /// The captcha verdict.
    AwaitCaptcha,
    /// The number of recent comments from the client's address.
    AwaitIpCount,
    /// The number of recent comments from everyone.
    AwaitGlobalCount,
    /// Akismet's verdict.
    AwaitSpamVerdict,
    /// Confirmation that the comment was stored.
    AwaitStored,
    /// The parent comment's author email, for the reply notification.
    AwaitParentEmail,
    /// Nothing: the submission is over.
    Finished,
}

/// The outcome of the operation the previous step asked for.
#[derive(Debug)]
pub enum SubmitEvent {
    /// The title of the public, non-deleted post with the requested id, if any.
    Post(Option<String>),
    /// Whether the parent is an approved comment on the same post.
    ParentValid(bool),
    /// The operator's settings.
    Settings(CommentSettings),
    /// Whether the captcha check passed.
    Captcha(bool),
    /// A count of recent comments.
    RecentCount(i64),
    /// Whether Akismet judged the comment spam.
    SpamVerdict(bool),
    /// The comment was stored.
    Stored,
    /// The parent comment's author email, if any.
    ParentEmail(Option<String>),
    /// The operation failed.
    Failed,
}

/// A comment to store.
#[derive(Debug)]
pub struct NewComment {
    pub post_id: i32,
    pub parent_id: Option<i64>,
    pub author_name: String,
    pub author_email: Option<String>,
    pub body: String,
    pub status: CommentStatus,
    pub ip: Option<String>,
    pub user_agent: Option<String>,
}

/// What the caller is to do next.
#[derive(Debug)]
pub enum SubmitAction {
    /// Look up the public post with this id (answer with `Post`).
    LoadPost(i32),
    /// Check the parent comment (answer with `ParentValid`).
    CheckParent { parent_id: i64, post_id: i32 },
    /// Load the settings (answer with `Settings`).
    LoadSettings,
    /// Verify the captcha under the flow's settings (answer with `Captcha`).
    VerifyCaptcha,
    /// Count comments from this address in the last `secs` seconds.
    CountRecentByIp { ip: String, secs: i32 },
    /// Count all comments in the last `secs` seconds.
    CountRecentGlobal { secs: i32 },
    /// Ask Akismet (answer with `SpamVerdict`, `false` when it fails).
    CheckSpam(AkismetRequest),
    /// Store the comment (answer with `Stored`).
    Store(NewComment),
    /// Look up the author email of this comment (answer with `ParentEmail`).
    LookupParentEmail(i64),
    /// Send the notifications, if any, and report `flag` to the visitor.
    Finish { flag: SubmitFlag, moderator: Option<Notification>, reply: Option<Notification> },
}

/// A submission on its way through the protocol.
#[derive(Debug)]
pub struct SubmitFlow {
    pub stage: SubmitStage,
    pub submission: Submission,
    pub client_ip: Option<String>,
    pub user_agent: Option<String>,
    /// The site URL Akismet keys on, when known.
    pub site: Option<String>,
    pub post_title: String,
    pub settings: CommentSettings,
    /// The status the comment will be stored with, once decided.
    pub status: CommentStatus,
    pub captcha_passed: bool,
    /// The recent count from the client's address, once checked.
    pub ip_recent: Option<i64>,
    /// The recent count from everyone, once checked.
    pub global_recent: Option<i64>,
}

/// `f` moved to `stage`, otherwise unchanged.
pub open spec fn at_stage(f: SubmitFlow, stage: SubmitStage) -> SubmitFlow {
    SubmitFlow { stage, ..f }
}

/// The flow ends with `flag` and no notification.
pub open spec fn ends_with(old: SubmitFlow, new: SubmitFlow, a: SubmitAction, flag: SubmitFlag) -> bool {
    &&& new == at_stage(old, SubmitStage::Finished)
    &&& a == SubmitAction::Finish { flag, moderator: None, reply: None }
}

/// Whether the operator asked for an Akismet check that can be made: a key
/// is set and the site URL is known.
pub open spec fn spam_check_applies(f: SubmitFlow) -> bool {
    non_empty(opt_string(f.settings.akismet_key)) is Some && f.site is Some
}

/// The comment the flow stores with `status`.
pub open spec fn comment_to_store(f: SubmitFlow, status: CommentStatus) -> NewComment {
    NewComment {
        post_id: f.submission.post_id,
        parent_id: f.submission.parent_id,
        author_name: f.submission.author_name,
        author_email: f.submission.author_email,
        body: f.submission.body,
        status,
        ip: f.client_ip,
        user_agent: f.user_agent,
    }
}

/// The Akismet request the flow makes, by view.
pub open spec fn spam_request_is(f: SubmitFlow, req: AkismetRequest) -> bool {
    &&& req.url@ == akismet_url(non_empty(opt_string(f.settings.akismet_key))->0)
    &&& req.form@ == akismet_form(
        f.site->0@,
        field_text(opt_string(f.client_ip)),
        field_text(opt_string(f.user_agent)),
        f.submission.author_name@,
        opt_string(f.submission.author_email),
        f.submission.body@,
    )
}

/// The moderator notification for the flow's comment.
pub open spec fn flow_moderator_notification(f: SubmitFlow) -> Option<(Seq<char>, Seq<char>, Seq<char>)> {
    moderator_notification_spec(
        opt_string(f.settings.notify_email),
        f.post_title@,
        f.submission.author_name@,
        f.submission.body@,
    )
}

/// One step of the protocol: from flow `old` and the outcome `event` of the
/// operation it asked for, the next flow `new` and action `a`. Any failed
/// operation, or an outcome that does not answer the pending question, ends
/// the submission with `error`, except once the comment is stored.
pub open spec fn submit_step(old: SubmitFlow, event: SubmitEvent, new: SubmitFlow, a: SubmitAction) -> bool {
    match old.stage {
        SubmitStage::AwaitPost => match event {
            SubmitEvent::Post(Some(title)) => match old.submission.parent_id {
                Some(pid) => {
                    &&& new == SubmitFlow { stage: SubmitStage::AwaitParent, post_title: title, ..old }
                    &&& a == SubmitAction::CheckParent { parent_id: pid, post_id: old.submission.post_id }
                },
                None => {
                    &&& new == SubmitFlow { stage: SubmitStage::AwaitSettings, post_title: title, ..old }
                    &&& a == SubmitAction::LoadSettings
                },
            },
            _ => ends_with(old, new, a, SubmitFlag::Error),
        },
        SubmitStage::AwaitParent => match event {
            SubmitEvent::ParentValid(true) => {
                &&& new == at_stage(old, SubmitStage::AwaitSettings)
                &&& a == SubmitAction::LoadSettings
            },
            _ => ends_with(old, new, a, SubmitFlag::Error),
        },
        SubmitStage::AwaitSettings => match event {
            SubmitEvent::Settings(settings) => {
                &&& new == SubmitFlow { stage: SubmitStage::AwaitCaptcha, settings, ..old }
                &&& a == SubmitAction::VerifyCaptcha
            },
            _ => ends_with(old, new, a, SubmitFlag::Error),
        },
        SubmitStage::AwaitCaptcha => match event {
            SubmitEvent::Captcha(true) => match old.client_ip {
                Some(ip) => {
                    &&& new == SubmitFlow {
                        stage: SubmitStage::AwaitIpCount,
                        captcha_passed: true,
                        ..old
                    }
                    &&& a == SubmitAction::CountRecentByIp { ip, secs: RATE_WINDOW_SECS }
                },
                None => {
                    &&& new == SubmitFlow {
                        stage: SubmitStage::AwaitGlobalCount,
                        captcha_passed: true,
                        ..old
                    }
                    &&& a == SubmitAction::CountRecentGlobal { secs: RATE_WINDOW_SECS }
                },
            },
            SubmitEvent::Captcha(false) => ends_with(old, new, a, SubmitFlag::Captcha),
            _ => ends_with(old, new, a, SubmitFlag::Error),
        },
        SubmitStage::AwaitIpCount => match event {
            SubmitEvent::RecentCount(n) => if n >= PER_IP_LIMIT {
                ends_with(old, new, a, SubmitFlag::SlowDown)
            } else {
                &&& new == SubmitFlow {
                    stage: SubmitStage::AwaitGlobalCount,
                    ip_recent: Some(n),
                    ..old
                }
                &&& a == SubmitAction::CountRecentGlobal { secs: RATE_WINDOW_SECS }
            },
            _ => ends_with(old, new, a, SubmitFlag::Error),
        },
        SubmitStage::AwaitGlobalCount => match event {
            SubmitEvent::RecentCount(n) => if n >= GLOBAL_LIMIT {
                ends_with(old, new, a, SubmitFlag::SlowDown)
            } else {
                let status = base_status(old.settings.require_moderation);
                if spam_check_applies(old) {
                    &&& new == SubmitFlow {
                        stage: SubmitStage::AwaitSpamVerdict,
                        global_recent: Some(n),
                        status,
                        ..old
                    }
                    &&& a matches SubmitAction::CheckSpam(req) && spam_request_is(old, req)
                } else {
                    &&& new == SubmitFlow {
                        stage: SubmitStage::AwaitStored,
                        global_recent: Some(n),
                        status,
                        ..old
                    }
                    &&& a == SubmitAction::Store(comment_to_store(old, status))
                }
            },
            _ => ends_with(old, new, a, SubmitFlag::Error),
        },
        SubmitStage::AwaitSpamVerdict => match event {
            SubmitEvent::SpamVerdict(spam) => {
                let status = if spam {
                    CommentStatus::Spam
                } else {
                    old.status
                };
                &&& new == SubmitFlow { stage: SubmitStage::AwaitStored, status, ..old }
                &&& a == SubmitAction::Store(comment_to_store(old, status))
            },
            _ => ends_with(old, new, a, SubmitFlag::Error),
        },
        SubmitStage::AwaitStored => match event {
            SubmitEvent::Stored => if old.status == CommentStatus::Spam {
                ends_with(old, new, a, SubmitFlag::Received)
            } else {
                match old.submission.parent_id {
                    Some(pid) => {
                        &&& new == at_stage(old, SubmitStage::AwaitParentEmail)
                        &&& a == SubmitAction::LookupParentEmail(pid)
                    },
                    None => {
                        &&& new == at_stage(old, SubmitStage::Finished)
                        &&& a matches SubmitAction::Finish { flag, moderator, reply }
                        &&& flag == stored_flag(old.status)
                        &&& notification_is(moderator, flow_moderator_notification(old))
                        &&& reply is None
                    },
                }
            },
            _ => ends_with(old, new, a, SubmitFlag::Error),
        },
        SubmitStage::AwaitParentEmail => {
            &&& new == at_stage(old, SubmitStage::Finished)
            &&& a matches SubmitAction::Finish { flag, moderator, reply }
            &&& flag == stored_flag(old.status)
            &&& notification_is(moderator, flow_moderator_notification(old))
            &&& match event {
                SubmitEvent::ParentEmail(to) => notification_is(
                    reply,
                    reply_notification_spec(
                        opt_string(to),
                        old.post_title@,
                        old.submission.author_name@,
                        old.submission.body@,
                    ),
                ),
                _ => reply is None,
            }
        },
        SubmitStage::Finished => ends_with(old, new, a, SubmitFlag::Error),
    }
}

/// What holds of every flow the protocol can reach: nothing is counted,
/// checked or stored before the captcha passed; nothing is checked for spam
/// or stored unless the flood guards let it through; a comment is stored as
/// spam or with the status the moderation setting gives it; and only a reply
/// that was stored and not judged spam waits for its parent's author email.
pub open spec fn flow_invariant(f: SubmitFlow) -> bool {
    let past_captcha = f.stage == SubmitStage::AwaitIpCount || f.stage
        == SubmitStage::AwaitGlobalCount || f.stage == SubmitStage::AwaitSpamVerdict || f.stage
        == SubmitStage::AwaitStored || f.stage == SubmitStage::AwaitParentEmail;
    let past_ip = f.stage == SubmitStage::AwaitGlobalCount || f.stage
        == SubmitStage::AwaitSpamVerdict || f.stage == SubmitStage::AwaitStored || f.stage
        == SubmitStage::AwaitParentEmail;
    let past_global = f.stage == SubmitStage::AwaitSpamVerdict || f.stage
        == SubmitStage::AwaitStored || f.stage == SubmitStage::AwaitParentEmail;
    &&& past_captcha ==> f.captcha_passed
    &&& past_ip ==> (f.client_ip is Some ==> (f.ip_recent matches Some(n) && n < PER_IP_LIMIT))
    &&& past_global ==> (f.global_recent matches Some(n) && n < GLOBAL_LIMIT)
    &&& f.stage == SubmitStage::AwaitSpamVerdict ==> f.status == base_status(
        f.settings.require_moderation,
    )
    &&& (f.stage == SubmitStage::AwaitStored || f.stage == SubmitStage::AwaitParentEmail) ==> (
    f.status == CommentStatus::Spam || f.status == base_status(f.settings.require_moderation))
    &&& f.stage == SubmitStage::AwaitParentEmail ==> f.status != CommentStatus::Spam
        && f.submission.parent_id is Some
}

impl SubmitFlow {
    /// Starts the protocol for a checked submission from the client at
    /// `client_ip` (when known), whose site URL is `site` (when known): first
    /// the target post is looked up.
    pub fn start(
        submission: Submission,
        client_ip: Option<String>,
        user_agent: Option<String>,
        site: Option<String>,
    ) -> (r: (SubmitFlow, SubmitAction))
        ensures
            r.0.stage == SubmitStage::AwaitPost,
            r.0.submission == submission,
            r.0.client_ip == client_ip,
            r.0.user_agent == user_agent,
            r.0.site == site,
            !r.0.captcha_passed,
            r.0.ip_recent is None,
            r.0.global_recent is None,
            r.1 == SubmitAction::LoadPost(submission.post_id),
            flow_invariant(r.0),
    {
        let post_id = submission.post_id;
        let flow = SubmitFlow {
            stage: SubmitStage::AwaitPost,
            submission,
            client_ip,
            user_agent,
            site,
            post_title: String::new(),
            settings: CommentSettings::default(),
            status: CommentStatus::Pending,
            captcha_passed: false,
            ip_recent: None,
            global_recent: None,
        };
        (flow, SubmitAction::LoadPost(post_id))
    }

    fn finish(&mut self, flag: SubmitFlag) -> (a: SubmitAction)
        ensures
            ends_with(*old(self), *final(self), a, flag),
    {
        self.stage = SubmitStage::Finished;
        SubmitAction::Finish { flag, moderator: None, reply: None }
    }

    fn store_action(&self, status: CommentStatus) -> (a: SubmitAction)
        ensures
            a == SubmitAction::Store(comment_to_store(*self, status)),
    {
        SubmitAction::Store(
            NewComment {
                post_id: self.submission.post_id,
                parent_id: self.submission.parent_id,
                author_name: self.submission.author_name.clone(),
                author_email: copy_opt(&self.submission.author_email),
                body: self.submission.body.clone(),
                status,
                ip: copy_opt(&self.client_ip),
                user_agent: copy_opt(&self.user_agent),
            },
        )
    }

    fn spam_request(&self) -> (r: Option<AkismetRequest>)
        ensures
            match r {
                Some(req) => spam_check_applies(*self) && spam_request_is(*self, req),
                None => !spam_check_applies(*self),
            },
    {
        let key = match &self.settings.akismet_key {
            Some(k) => if k.as_str().unicode_len() > 0 {
                k.as_str()
            } else {
                return None;
            },
            None => {
                return None;
            },
        };
        let blog = match &self.site {
            Some(b) => b.as_str(),
            None => {
                return None;
            },
        };
        let ip = match &self.client_ip {
            Some(i) => i.as_str(),
            None => {
                proof {
                    reveal_strlit("");
                }
                ""
            },
        };
        let ua = match &self.user_agent {
            Some(u) => u.as_str(),
            None => {
                proof {
                    reveal_strlit("");
                }
                ""
            },
        };
        Some(
            akismet_request(
                key,
                blog,
                ip,
                ua,
                self.submission.author_name.as_str(),
                crate::text::opt_as_str(&self.submission.author_email),
                self.submission.body.as_str(),
            ),
        )
    }

    /// Takes the outcome of the pending operation and returns what to do
    /// next.
    pub fn step(&mut self, event: SubmitEvent) -> (a: SubmitAction)
        ensures
            submit_step(*old(self), event, *final(self), a),
    {
        match self.stage {
            SubmitStage::AwaitPost => match event {
                SubmitEvent::Post(Some(title)) => {
                    self.post_title = title;
                    match self.submission.parent_id {
                        Some(pid) => {
                            self.stage = SubmitStage::AwaitParent;
                            SubmitAction::CheckParent {
                                parent_id: pid,
                                post_id: self.submission.post_id,
                            }
                        },
                        None => {
                            self.stage = SubmitStage::AwaitSettings;
                            SubmitAction::LoadSettings
                        },
                    }
                },
                _ => self.finish(SubmitFlag::Error),
            },
            SubmitStage::AwaitParent => match event {
                SubmitEvent::ParentValid(true) => {
                    self.stage = SubmitStage::AwaitSettings;
                    SubmitAction::LoadSettings
                },
                _ => self.finish(SubmitFlag::Error),
            },
            SubmitStage::AwaitSettings => match event {
                SubmitEvent::Settings(settings) => {
                    self.settings = settings;
                    self.stage = SubmitStage::AwaitCaptcha;
                    SubmitAction::VerifyCaptcha
                },
                _ => self.finish(SubmitFlag::Error),
            },
            SubmitStage::AwaitCaptcha => match event {
                SubmitEvent::Captcha(true) => {
                    self.captcha_passed = true;
                    match &self.client_ip {
                        Some(ip) => {
                            let ip = ip.clone();
                            self.stage = SubmitStage::AwaitIpCount;
                            SubmitAction::CountRecentByIp { ip, secs: RATE_WINDOW_SECS }
                        },
                        None => {
                            self.stage = SubmitStage::AwaitGlobalCount;
                            SubmitAction::CountRecentGlobal { secs: RATE_WINDOW_SECS }
                        },
                    }
                },
                SubmitEvent::Captcha(false) => self.finish(SubmitFlag::Captcha),
                _ => self.finish(SubmitFlag::Error),
            },
            SubmitStage::AwaitIpCount => match event {
                SubmitEvent::RecentCount(n) => if n >= PER_IP_LIMIT {
                    self.finish(SubmitFlag::SlowDown)
                } else {
                    self.ip_recent = Some(n);
                    self.stage = SubmitStage::AwaitGlobalCount;
                    SubmitAction::CountRecentGlobal { secs: RATE_WINDOW_SECS }
                },
                _ => self.finish(SubmitFlag::Error),
            },
            SubmitStage::AwaitGlobalCount => match event {
                SubmitEvent::RecentCount(n) => if n >= GLOBAL_LIMIT {
                    self.finish(SubmitFlag::SlowDown)
                } else {
                    let status = if self.settings.require_moderation {
                        CommentStatus::Pending
                    } else {
                        CommentStatus::Approved
                    };
                    match self.spam_request() {
                        Some(req) => {
                            self.global_recent = Some(n);
                            self.status = status;
                            self.stage = SubmitStage::AwaitSpamVerdict;
                            SubmitAction::CheckSpam(req)
                        },
                        None => {
                            let a = self.store_action(status);
                            self.global_recent = Some(n);
                            self.status = status;
                            self.stage = SubmitStage::AwaitStored;
                            a
                        },
                    }
                },
                _ => self.finish(SubmitFlag::Error),
            },
            SubmitStage::AwaitSpamVerdict => match event {
                SubmitEvent::SpamVerdict(spam) => {
                    let status = if spam {
                        CommentStatus::Spam
                    } else {
                        self.status
                    };
                    let a = self.store_action(status);
                    self.status = status;
                    self.stage = SubmitStage::AwaitStored;
                    a
                },
                _ => self.finish(SubmitFlag::Error),
            },
            SubmitStage::AwaitStored => match event {
                SubmitEvent::Stored => if self.status == CommentStatus::Spam {
                    self.finish(SubmitFlag::Received)
                } else {
                    match self.submission.parent_id {
                        Some(pid) => {
                            self.stage = SubmitStage::AwaitParentEmail;
                            SubmitAction::LookupParentEmail(pid)
                        },
                        None => {
                            let moderator = self.moderator();
                            self.stage = SubmitStage::Finished;
                            SubmitAction::Finish {
                                flag: self.stored_flag(),
                                moderator,
                                reply: None,
                            }
                        },
                    }
                },
                _ => self.finish(SubmitFlag::Error),
            },
            SubmitStage::AwaitParentEmail => {
                let moderator = self.moderator();
                let reply = match event {
                    SubmitEvent::ParentEmail(to) => reply_notification(
                        &to,
                        self.post_title.as_str(),
                        self.submission.author_name.as_str(),
                        self.submission.body.as_str(),
                    ),
                    _ => None,
                };
                self.stage = SubmitStage::Finished;
                SubmitAction::Finish { flag: self.stored_flag(), moderator, reply }
            },
            SubmitStage::Finished => self.finish(SubmitFlag::Error),
        }
    }

    fn moderator(&self) -> (r: Option<Notification>)
        ensures
            notification_is(r, flow_moderator_notification(*self)),
    {
        moderator_notification(
            &self.settings.notify_email,
            self.post_title.as_str(),
            self.submission.author_name.as_str(),
            self.submission.body.as_str(),
        )
    }

    fn stored_flag(&self) -> (r: SubmitFlag)
        ensures
            r == stored_flag(self.status),
    {
        if self.status == CommentStatus::Approved {
            SubmitFlag::Posted
        } else {
            SubmitFlag::Received
        }
    }
}

/// A form whose honeypot was filled in is answered as if it had been
/// received, whatever else it holds and whenever it comes: nothing of it is
/// checked further or stored.
pub proof fn honeypot_submission_is_dropped(form: CommentForm, now_ms: int)
    requires
        honeypot_filled(opt_string(form.website)),
    ensures
        checked_submission(form, now_ms) == Err::<
            (i32, Option<i64>, Seq<char>, Option<Seq<char>>, Seq<char>),
            SubmitFlag,
        >(SubmitFlag::Received),
{
}

/// A form without a readable load stamp (no script ran, or the stamp is
/// garbled) is never turned away as too fast.
pub proof fn missing_stamp_is_never_too_fast(form: CommentForm, now_ms: int)
    requires
        crate::antispam::form_timestamp(opt_string(form.ts)) is None,
        !honeypot_filled(opt_string(form.website)),
    ensures
        checked_submission(form, now_ms) == checked_fields(form),
{
}

// ---------------------------------------------------------------------------
// What the protocol guarantees
// ---------------------------------------------------------------------------

/// Every step keeps the flow invariant: from any reachable flow, whatever
/// the outcome reported, the next flow is reachable too.
pub proof fn submit_step_keeps_invariant(
    old: SubmitFlow,
    event: SubmitEvent,
    new: SubmitFlow,
    a: SubmitAction,
)
    requires
        flow_invariant(old),
        submit_step(old, event, new, a),
    ensures
        flow_invariant(new),
{
}

/// A comment is only ever stored after its captcha passed and the flood
/// guards let it through (fewer than 5 recent comments from its address,
/// when known, and fewer than 30 overall), and it is stored either as spam
/// or with the status the moderation setting gives it: while the operator
/// moderates comments, nothing that Akismet did not flag is stored as
/// anything but pending.
pub proof fn stored_only_after_guards(
    old: SubmitFlow,
    event: SubmitEvent,
    new: SubmitFlow,
    a: SubmitAction,
)
    requires
        flow_invariant(old),
        submit_step(old, event, new, a),
        a is Store,
    ensures
        new.captcha_passed,
        new.client_ip is Some ==> (new.ip_recent matches Some(n) && n < PER_IP_LIMIT),
        new.global_recent matches Some(n) && n < GLOBAL_LIMIT,
        a->Store_0.status == CommentStatus::Spam || a->Store_0.status == base_status(
            new.settings.require_moderation,
        ),
        new.settings.require_moderation && a->Store_0.status != CommentStatus::Spam
            ==> a->Store_0.status == CommentStatus::Pending,
        a->Store_0.post_id == old.submission.post_id,
        a->Store_0.body == old.submission.body,
{
}

/// A submission is reported as published (`posted`) only when the operator
/// does not moderate comments; with moderation on, a stored comment is
/// always reported as received for moderation.
pub proof fn posted_only_without_moderation(
    old: SubmitFlow,
    event: SubmitEvent,
    new: SubmitFlow,
    a: SubmitAction,
)
    requires
        flow_invariant(old),
        submit_step(old, event, new, a),
        a matches SubmitAction::Finish { flag, .. } && flag == SubmitFlag::Posted,
    ensures
        !old.settings.require_moderation,
        old.captcha_passed,
{
}

/// Whether the step from `old` on `event` finishes a submission whose
/// comment was stored and not judged spam: a top-level comment once it is
/// stored, a reply once its parent's author email is known.
pub open spec fn finishes_stored_comment(old: SubmitFlow, event: SubmitEvent) -> bool {
    ||| old.stage == SubmitStage::AwaitStored && event is Stored && old.status
        != CommentStatus::Spam && old.submission.parent_id is None
    ||| old.stage == SubmitStage::AwaitParentEmail
}

/// A stored comment is reported as published exactly when it was stored as
/// approved: the visitor sees `posted` for a comment that is live, and
/// `received` for one that waits for review or was judged spam.
pub proof fn posted_iff_stored_approved(
    old: SubmitFlow,
    event: SubmitEvent,
    new: SubmitFlow,
    a: SubmitAction,
)
    requires
        flow_invariant(old),
        submit_step(old, event, new, a),
        finishes_stored_comment(old, event) || old.stage == SubmitStage::AwaitStored
            && event is Stored && old.status == CommentStatus::Spam,
    ensures
        a matches SubmitAction::Finish { flag, .. } && (flag == SubmitFlag::Posted
            <==> old.status == CommentStatus::Approved) && (flag == SubmitFlag::Received
            <==> old.status != CommentStatus::Approved),
{
}

/// The moderator hears of every stored comment that was not judged spam,
/// reply or not: when a notification address is configured, the finish
/// carries an email to that address about a new comment on the post; when
/// none is, it carries none.
pub proof fn moderator_told_of_every_stored_comment(
    old: SubmitFlow,
    event: SubmitEvent,
    new: SubmitFlow,
    a: SubmitAction,
)
    requires
        flow_invariant(old),
        submit_step(old, event, new, a),
        finishes_stored_comment(old, event),
    ensures
        a matches SubmitAction::Finish { moderator, .. } && match non_empty(
            opt_string(old.settings.notify_email),
        ) {
            Some(to) => moderator matches Some(n) && n.to@ == to && n.subject@
                == "Neuer Kommentar: "@ + old.post_title@,
            None => moderator is None,
        },
{
}

/// The author of the comment being answered hears of the reply when they
/// left an address, and nobody else is sent a reply notification.
pub proof fn parent_author_told_of_reply(
    old: SubmitFlow,
    event: SubmitEvent,
    new: SubmitFlow,
    a: SubmitAction,
)
    requires
        flow_invariant(old),
        submit_step(old, event, new, a),
        finishes_stored_comment(old, event),
    ensures
        a matches SubmitAction::Finish { reply, .. } && match event {
            SubmitEvent::ParentEmail(to) => match non_empty(opt_string(to)) {
                Some(addr) => reply matches Some(n) && n.to@ == addr && n.subject@
                    == "Neue Antwort auf Ihren Kommentar: "@ + old.post_title@,
                None => reply is None,
            },
            _ => reply is None,
        },
{
}

} // verus!
