//! The records the comment section works with: posts read from the CMS,
//! comments as shown publicly and to moderators, moderation requests,
//! counts, and the operator's settings.

use vstd::prelude::*;
use crate::text::{copy_opt, owned};

verus! {

/// A post as the CMS stores it.
#[derive(Debug)]
pub struct CmsPost {
    pub id: i32,
    pub title: String,
    pub slug: String,
}

/// The fields of an approved comment that are safe to render on the page.
/// `parent_id` is the comment it replies to, if any; `created_at` is the
/// creation time in Unix seconds (UTC); `likes` is its like count.
#[derive(Debug)]
pub struct CommentPublic {
    pub id: i64,
    pub parent_id: Option<i64>,
    pub author_name: String,
    pub body: String,
    pub created_at: i64,
    pub likes: i64,
}

/// A comment as the moderation view lists it. `post_title` is filled in from
/// the CMS after loading; `created_at` is in Unix seconds (UTC).
#[derive(Debug)]
pub struct Comment {
    pub id: i64,
    pub post_id: i32,
    pub author_name: String,
    pub author_email: Option<String>,
    pub body: String,
    pub status: String,
    pub created_at: i64,
    pub post_title: Option<String>,
}

impl Comment {
    /// A field-for-field copy.
    pub fn duplicate(&self) -> (r: Comment)
        ensures
            r == *self,
    {
        Comment {
            id: self.id,
            post_id: self.post_id,
            author_name: self.author_name.clone(),
            author_email: copy_opt(&self.author_email),
            body: self.body.clone(),
            status: self.status.clone(),
            created_at: self.created_at,
            post_title: copy_opt(&self.post_title),
        }
    }
}

/// A moderation request: `action` is one of `approve`, `spam`, `pending`,
/// `delete`.
#[derive(Debug)]
pub struct ModerationRequest {
    pub id: i64,
    pub action: String,
}

/// Comment counts per status and the latest approved comments.
#[derive(Debug)]
pub struct Stats {
    pub pending: i64,
    pub approved: i64,
    pub spam: i64,
    pub total: i64,
    pub recent: Vec<Comment>,
}

impl Default for Stats {
    fn default() -> (r: Stats)
        ensures
            r.pending == 0 && r.approved == 0 && r.spam == 0 && r.total == 0,
            r.recent@.len() == 0,
    {
        Stats { pending: 0, approved: 0, spam: 0, total: 0, recent: Vec::new() }
    }
}

/// The operator's settings. `captcha_provider` is `none`, `hcaptcha` or
/// `recaptcha`.
#[derive(Debug)]
pub struct CommentSettings {
    pub require_moderation: bool,
    pub collect_email: bool,
    pub captcha_provider: String,
    pub captcha_site_key: Option<String>,
    pub captcha_secret: Option<String>,
    pub notify_email: Option<String>,
    pub akismet_key: Option<String>,
}

impl CommentSettings {
    /// A field-for-field copy.
    pub fn duplicate(&self) -> (r: CommentSettings)
        ensures
            r == *self,
    {
        CommentSettings {
            require_moderation: self.require_moderation,
            collect_email: self.collect_email,
            captcha_provider: self.captcha_provider.clone(),
            captcha_site_key: copy_opt(&self.captcha_site_key),
            captcha_secret: copy_opt(&self.captcha_secret),
            notify_email: copy_opt(&self.notify_email),
            akismet_key: copy_opt(&self.akismet_key),
        }
    }
}

/// Whether `s` holds the defaults: moderation on, email collected, no
/// captcha, nothing else configured.
pub open spec fn is_default_settings(s: CommentSettings) -> bool {
    &&& s.require_moderation
    &&& s.collect_email
    &&& s.captcha_provider@ == "none"@
    &&& s.captcha_site_key is None
    &&& s.captcha_secret is None
    &&& s.notify_email is None
    &&& s.akismet_key is None
}

impl Default for CommentSettings {
    /// Safe out of the box: every comment waits for moderation.
    fn default() -> (r: CommentSettings)
        ensures
            is_default_settings(r),
    {
        CommentSettings {
            require_moderation: true,
            collect_email: true,
            captcha_provider: owned("none"),
            captcha_site_key: None,
            captcha_secret: None,
            notify_email: None,
            akismet_key: None,
        }
    }
}

} // verus!
