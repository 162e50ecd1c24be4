//! The dashboard cards: the moderation queue and the latest approved
//! comments, each comment reduced to a short row.

use vstd::prelude::*;
use crate::lang::Lang;
use crate::model::Comment;
use crate::numbers::{push_signed_decimal, signed_decimal};
use crate::render::{comment_date, push_comment_date};
use crate::text::{chars_of, collapse_whitespace, collapsed, owned, string_of_range, trim_end, trim_end_seq};

verus! {

/// A comment reduced to the fields a dashboard card shows. The card template
/// escapes these raw strings when it renders them.
#[derive(Debug)]
pub struct CardRow {
    pub author: String,
    pub snippet: String,
    pub date: String,
    pub post_title: String,
}

/// `s` with its white space collapsed, cut to `max` characters with an
/// ellipsis when longer (trailing white space before the ellipsis dropped).
pub open spec fn truncated(s: Seq<char>, max: nat) -> Seq<char> {
    let c = collapsed(s);
    if c.len() <= max {
        c
    } else {
        trim_end_seq(c.take(max as int)) + "…"@
    }
}

/// A short preview of `s` of at most `max` characters plus an ellipsis.
pub fn truncate(s: &str, max: usize) -> (r: String)
    ensures
        r@ == truncated(s@, max as nat),
{
    let c = collapse_whitespace(s);
    let x = chars_of(c.as_str());
    if x.len() <= max {
        return c;
    }
    let cut = string_of_range(x.as_slice(), 0, max);
    assert(cut@ =~= c@.take(max as int));
    let mut r = trim_end(cut.as_str());
    r.append("…");
    r
}

proof fn lemma_trim_end_shorter(s: Seq<char>)
    ensures
        trim_end_seq(s).len() <= s.len(),
    decreases s.len(),
{
    if s.len() > 0 && crate::text::is_white_space(s.last()) {
        lemma_trim_end_shorter(s.drop_last());
    }
}

/// A preview is never longer than the limit plus the ellipsis, and text that
/// fits is shown whole (with its white space collapsed).
pub proof fn truncated_is_short(s: Seq<char>, max: nat)
    ensures
        truncated(s, max).len() <= max + 1,
        collapsed(s).len() <= max ==> truncated(s, max) == collapsed(s),
{
    reveal_strlit("…");
    if collapsed(s).len() > max {
        lemma_trim_end_shorter(collapsed(s).take(max as int));
    }
}

/// The title a card shows for a comment's post: its title when known, else
/// `Post #<id>`.
pub open spec fn card_post_title(c: Comment) -> Seq<char> {
    match c.post_title {
        Some(t) => t@,
        None => "Post #"@ + signed_decimal(c.post_id as int),
    }
}

/// Whether `row` is the card row of comment `c`.
pub open spec fn is_card_row(row: CardRow, c: Comment) -> bool {
    &&& row.author@ == c.author_name@
    &&& row.snippet@ == truncated(c.body@, 90)
    &&& row.date@ == comment_date(Lang::De, c.created_at)
    &&& row.post_title@ == card_post_title(c)
}

/// The card row of one comment.
pub fn card_row(c: &Comment) -> (r: CardRow)
    ensures
        is_card_row(r, *c),
{
    let mut date = String::new();
    push_comment_date(&mut date, Lang::De, c.created_at);
    assert(date@ =~= comment_date(Lang::De, c.created_at));
    let post_title = match &c.post_title {
        Some(t) => t.clone(),
        None => {
            let mut t = owned("Post #");
            push_signed_decimal(&mut t, c.post_id as i64);
            t
        },
    };
    CardRow {
        author: c.author_name.clone(),
        snippet: truncate(c.body.as_str(), 90),
        date,
        post_title,
    }
}

/// The card rows of the comments, in order.
pub fn card_rows(comments: Vec<Comment>) -> (r: Vec<CardRow>)
    ensures
        r@.len() == comments@.len(),
        forall|i: int| 0 <= i < r@.len() ==> is_card_row(#[trigger] r@[i], comments@[i]),
{
    let mut rows: Vec<CardRow> = Vec::new();
    for i in 0..comments.len()
        invariant
            rows@.len() == i,
            forall|j: int| 0 <= j < i ==> is_card_row(#[trigger] rows@[j], comments@[j]),
    {
        rows.push(card_row(&comments[i]));
    }
    rows
}

/// How many pending comments the moderation card lists.
pub const PENDING_CARD_ROWS: usize = 6;

} // verus!
