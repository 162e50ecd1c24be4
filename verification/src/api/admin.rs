//! The moderation view: listing comments by status, applying moderation
//! actions, joining in post titles and counting comments.

use vstd::prelude::*;
use crate::api::submission::{status_code, CommentStatus};
use crate::model::{CmsPost, Comment, Stats};
use crate::text::{opt_string, owned, str_eq};

verus! {

/// The query of the moderation list.
#[derive(Debug)]
pub struct ListQuery {
    pub status: Option<String>,
}

/// Whether `s` names a status the list can be filtered by.
pub open spec fn is_list_status(s: Seq<char>) -> bool {
    s == "pending"@ || s == "approved"@ || s == "spam"@
}

/// The status filter of the moderation list: a known status, else none
/// (list everything).
pub fn list_filter(status: Option<&str>) -> (r: Option<String>)
    ensures
        opt_string(r) == match status {
            Some(s) => if is_list_status(s@) {
                Some(s@)
            } else {
                None
            },
            None => None,
        },
{
    match status {
        Some(s) => if str_eq(s, "pending") || str_eq(s, "approved") || str_eq(s, "spam") {
            Some(owned(s))
        } else {
            None
        },
        None => None,
    }
}

/// What a moderation action does to a comment.
#[derive(Clone, Copy, Debug, PartialEq, Eq, Structural)]
pub enum ModerationOp {
    SetStatus(CommentStatus),
    Delete,
}

/// The operation a moderation action names: `approve`, `spam` and `pending`
/// set the status, `delete` removes the comment; `None` for anything else.
pub open spec fn moderation_op_of(action: Seq<char>) -> Option<ModerationOp> {
    if action == "approve"@ {
        Some(ModerationOp::SetStatus(CommentStatus::Approved))
    } else if action == "spam"@ {
        Some(ModerationOp::SetStatus(CommentStatus::Spam))
    } else if action == "pending"@ {
        Some(ModerationOp::SetStatus(CommentStatus::Pending))
    } else if action == "delete"@ {
        Some(ModerationOp::Delete)
    } else {
        None
    }
}

/// The operation a moderation action names.
pub fn moderation_op(action: &str) -> (r: Option<ModerationOp>)
    ensures
        r == moderation_op_of(action@),
{
    if str_eq(action, "approve") {
        Some(ModerationOp::SetStatus(CommentStatus::Approved))
    } else if str_eq(action, "spam") {
        Some(ModerationOp::SetStatus(CommentStatus::Spam))
    } else if str_eq(action, "pending") {
        Some(ModerationOp::SetStatus(CommentStatus::Pending))
    } else if str_eq(action, "delete") {
        Some(ModerationOp::Delete)
    } else {
        None
    }
}

/// The answer to an unknown moderation action.
pub fn unknown_action_message(action: &str) -> (r: String)
    ensures
        r@ == "unknown action: "@ + action@,
{
    let mut m = owned("unknown action: ");
    m.append(action);
    m
}

/// Every status a moderator can set is one the list can be filtered by.
pub proof fn moderated_status_is_listable(action: Seq<char>)
    ensures
        moderation_op_of(action) matches Some(ModerationOp::SetStatus(s)) ==> is_list_status(
            status_code(s),
        ),
{
}

/// The title of the post with id `id` among `posts`; when several carry the
/// id, the last one's, as a map built from them keeps it.
pub open spec fn title_for(posts: Seq<CmsPost>, id: i32) -> Option<Seq<char>>
    decreases posts.len(),
{
    if posts.len() == 0 {
        None
    } else if posts.last().id == id {
        Some(posts.last().title@)
    } else {
        title_for(posts.drop_last(), id)
    }
}

/// Whether `c2` is `c1` with its post title filled in from `posts`.
pub open spec fn titled(c2: Comment, c1: Comment, posts: Seq<CmsPost>) -> bool {
    &&& c2.id == c1.id
    &&& c2.post_id == c1.post_id
    &&& c2.author_name == c1.author_name
    &&& c2.author_email == c1.author_email
    &&& c2.body == c1.body
    &&& c2.status == c1.status
    &&& c2.created_at == c1.created_at
    &&& opt_string(c2.post_title) == title_for(posts, c1.post_id)
}

fn find_title(posts: &[CmsPost], id: i32) -> (r: Option<String>)
    ensures
        opt_string(r) == title_for(posts@, id),
{
    let mut i = posts.len();
    assert(posts@.take(i as int) =~= posts@);
    while i > 0
        invariant
            i <= posts@.len(),
            title_for(posts@, id) == title_for(posts@.take(i as int), id),
        decreases i,
    {
        let ghost p = posts@.take(i as int);
        assert(p.last() == posts@[i - 1]);
        assert(p.drop_last() =~= posts@.take(i - 1));
        if posts[i - 1].id == id {
            return Some(posts[i - 1].title.clone());
        }
        i = i - 1;
    }
    None
}

/// Fills in each comment's `post_title` from the posts read from the CMS
/// (the two live in separate databases, so this is a second query rather
/// than a join); a comment whose post is not among them gets none.
pub fn attach_titles(comments: &mut Vec<Comment>, posts: &[CmsPost])
    ensures
        final(comments)@.len() == old(comments)@.len(),
        forall|i: int|
            0 <= i < final(comments)@.len() ==> titled(
                #[trigger] final(comments)@[i],
                old(comments)@[i],
                posts@,
            ),
{
    let ghost start = comments@;
    let n = comments.len();
    for i in 0..n
        invariant
            n == start.len(),
            comments@.len() == start.len(),
            forall|j: int| 0 <= j < i ==> titled(#[trigger] comments@[j], start[j], posts@),
            forall|j: int| i <= j < comments@.len() ==> #[trigger] comments@[j] == start[j],
    {
        let mut c = comments[i].duplicate();
        c.post_title = find_title(posts, c.post_id);
        comments.set(i, c);
    }
    assert(old(comments)@ == start);
}

fn holds_id(ids: &Vec<i32>, id: i32) -> (r: bool)
    ensures
        r == ids@.contains(id),
{
    for i in 0..ids.len()
        invariant
            forall|j: int| 0 <= j < i ==> ids@[j] != id,
    {
        if ids[i] == id {
            return true;
        }
    }
    false
}

/// Whether some comment of `comments` is on post `id`.
pub open spec fn has_post(comments: Seq<Comment>, id: i32) -> bool {
    exists|k: int| 0 <= k < comments.len() && comments[k].post_id == id
}

/// The distinct post ids of the comments: the posts whose titles are to be
/// read.
pub fn post_ids(comments: &[Comment]) -> (r: Vec<i32>)
    ensures
        forall|i: int, j: int| 0 <= i < j < r@.len() ==> r@[i] != r@[j],
        forall|k: int| 0 <= k < comments@.len() ==> r@.contains(#[trigger] comments@[k].post_id),
        forall|i: int| 0 <= i < r@.len() ==> has_post(comments@, #[trigger] r@[i]),
{
    let mut ids: Vec<i32> = Vec::new();
    let n = comments.len();
    for k in 0..n
        invariant
            n == comments@.len(),
            forall|i: int, j: int| 0 <= i < j < ids@.len() ==> ids@[i] != ids@[j],
            forall|m: int| 0 <= m < k ==> ids@.contains(#[trigger] comments@[m].post_id),
            forall|i: int| 0 <= i < ids@.len() ==> has_post(comments@, #[trigger] ids@[i]),
    {
        let id = comments[k].post_id;
        assert(has_post(comments@, id));
        if !holds_id(&ids, id) {
            let ghost before = ids@;
            ids.push(id);
            assert forall|m: int| 0 <= m < k + 1 implies ids@.contains(
                #[trigger] comments@[m].post_id,
            ) by {
                if m < k {
                    let j = choose|j: int| 0 <= j < before.len() && before[j] == comments@[m].post_id;
                    assert(ids@[j] == before[j]);
                } else {
                    assert(ids@[before.len() as int] == id);
                }
            }
            assert forall|i: int| 0 <= i < ids@.len() implies has_post(comments@, #[trigger] ids@[i]) by {
                if i < before.len() {
                    assert(ids@[i] == before[i]);
                }
            }
        }
    }
    ids
}

/// The counts of the stats card: the total is the sum of the three
/// statuses.
pub fn make_stats(pending: i64, approved: i64, spam: i64, recent: Vec<Comment>) -> (r: Stats)
    requires
        i64::MIN <= pending + approved <= i64::MAX,
        i64::MIN <= pending + approved + spam <= i64::MAX,
    ensures
        r.pending == pending,
        r.approved == approved,
        r.spam == spam,
        r.total == pending + approved + spam,
        r.recent == recent,
{
    Stats { pending, approved, spam, total: pending + approved + spam, recent }
}

} // verus!
