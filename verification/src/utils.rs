//! HTML escaping: the boundary that keeps visitor-supplied text from ever
//! being read as markup.

use vstd::prelude::*;
use crate::text::{chars_of, push_char};

verus! {

/// The HTML text for one character: the five characters with a meaning in
/// markup become entities, every other character stands for itself.
pub open spec fn escape_char(c: char) -> Seq<char> {
    if c == '&' {
        seq!['&', 'a', 'm', 'p', ';']
    } else if c == '<' {
        seq!['&', 'l', 't', ';']
    } else if c == '>' {
        seq!['&', 'g', 't', ';']
    } else if c == '"' {
        seq!['&', 'q', 'u', 'o', 't', ';']
    } else if c == '\'' {
        seq!['&', '#', '3', '9', ';']
    } else {
        seq![c]
    }
}

/// `s` escaped for use as HTML text or as a quoted attribute value.
pub open spec fn escaped(s: Seq<char>) -> Seq<char>
    decreases s.len(),
{
    if s.len() == 0 {
        Seq::empty()
    } else {
        escape_char(s[0]) + escaped(s.drop_first())
    }
}

/// One character of multi-line text: a line feed becomes a `<br>`.
pub open spec fn multiline_char(c: char) -> Seq<char> {
    if c == '\n' {
        seq!['<', 'b', 'r', '>']
    } else {
        escape_char(c)
    }
}

/// `s` escaped as HTML text with its line breaks kept as `<br>`.
pub open spec fn escaped_multiline(s: Seq<char>) -> Seq<char>
    decreases s.len(),
{
    if s.len() == 0 {
        Seq::empty()
    } else {
        multiline_char(s[0]) + escaped_multiline(s.drop_first())
    }
}

/// Escaping distributes over concatenation.
pub proof fn lemma_escaped_concat(a: Seq<char>, b: Seq<char>)
    ensures
        escaped(a + b) == escaped(a) + escaped(b),
        escaped_multiline(a + b) == escaped_multiline(a) + escaped_multiline(b),
    decreases a.len(),
{
    if a.len() == 0 {
        assert(a + b =~= b);
    } else {
        lemma_escaped_concat(a.drop_first(), b);
        assert((a + b).drop_first() =~= a.drop_first() + b);
    }
}

proof fn lemma_escaped_single(c: char)
    ensures
        escaped(seq![c]) == escape_char(c),
        escaped_multiline(seq![c]) == multiline_char(c),
{
    reveal_with_fuel(escaped, 2);
    reveal_with_fuel(escaped_multiline, 2);
    assert(seq![c].drop_first() =~= Seq::<char>::empty());
    assert(seq![c][0] == c);
    assert(escape_char(c) + Seq::<char>::empty() =~= escape_char(c));
    assert(multiline_char(c) + Seq::<char>::empty() =~= multiline_char(c));
}

fn push_escaped_char(out: &mut String, c: char, multiline: bool)
    ensures
        final(out)@ == old(out)@ + (if multiline {
            multiline_char(c)
        } else {
            escape_char(c)
        }),
{
    let ghost start = out@;
    if multiline && c == '\n' {
        push_char(out, '<');
        push_char(out, 'b');
        push_char(out, 'r');
        push_char(out, '>');
    } else if c == '&' {
        push_char(out, '&');
        push_char(out, 'a');
        push_char(out, 'm');
        push_char(out, 'p');
        push_char(out, ';');
    } else if c == '<' {
        push_char(out, '&');
        push_char(out, 'l');
        push_char(out, 't');
        push_char(out, ';');
    } else if c == '>' {
        push_char(out, '&');
        push_char(out, 'g');
        push_char(out, 't');
        push_char(out, ';');
    } else if c == '"' {
        push_char(out, '&');
        push_char(out, 'q');
        push_char(out, 'u');
        push_char(out, 'o');
        push_char(out, 't');
        push_char(out, ';');
    } else if c == '\'' {
        push_char(out, '&');
        push_char(out, '#');
        push_char(out, '3');
        push_char(out, '9');
        push_char(out, ';');
    } else {
        push_char(out, c);
    }
    assert(final(out)@ =~= start + (if multiline {
        multiline_char(c)
    } else {
        escape_char(c)
    }));
}

fn escape_into(out: &mut String, s: &str, multiline: bool)
    ensures
        final(out)@ == old(out)@ + (if multiline {
            escaped_multiline(s@)
        } else {
            escaped(s@)
        }),
{
    let x = chars_of(s);
    let ghost start = out@;
    for i in 0..x.len()
        invariant
            x@ == s@,
            out@ == start + (if multiline {
                escaped_multiline(s@.take(i as int))
            } else {
                escaped(s@.take(i as int))
            }),
    {
        push_escaped_char(out, x[i], multiline);
        proof {
            assert(s@.take(i + 1) =~= s@.take(i as int) + seq![x@[i as int]]);
            lemma_escaped_concat(s@.take(i as int), seq![x@[i as int]]);
            lemma_escaped_single(x@[i as int]);
        }
    }
    assert(s@.take(x.len() as int) =~= s@);
}

/// `s` escaped for HTML: `&`, `<`, `>`, `"` and `'` become entities.
pub fn escape_html(s: &str) -> (r: String)
    ensures
        r@ == escaped(s@),
{
    let mut r = String::new();
    escape_into(&mut r, s, false);
    assert(r@ =~= escaped(s@));
    r
}

/// `s` escaped for HTML with each line feed rendered as `<br>`.
pub fn escape_multiline(s: &str) -> (r: String)
    ensures
        r@ == escaped_multiline(s@),
{
    let mut r = String::new();
    escape_into(&mut r, s, true);
    assert(r@ =~= escaped_multiline(s@));
    r
}

/// Appends `s` escaped for HTML.
pub fn push_escaped(out: &mut String, s: &str)
    ensures
        final(out)@ == old(out)@ + escaped(s@),
{
    escape_into(out, s, false);
}

/// Appends `s` escaped for HTML, line feeds as `<br>`.
pub fn push_escaped_multiline(out: &mut String, s: &str)
    ensures
        final(out)@ == old(out)@ + escaped_multiline(s@),
{
    escape_into(out, s, true);
}

// ---------------------------------------------------------------------------
// What escaping guarantees
// ---------------------------------------------------------------------------

/// Whether `c` opens or closes markup or delimits an attribute value.
pub open spec fn is_markup_char(c: char) -> bool {
    c == '<' || c == '>' || c == '"' || c == '\''
}

/// Escaped text holds no character that could open a tag or leave an
/// attribute value: visitor text can never become markup.
pub proof fn escaped_holds_no_markup(s: Seq<char>)
    ensures
        forall|i: int| 0 <= i < escaped(s).len() ==> !is_markup_char(#[trigger] escaped(s)[i]),
    decreases s.len(),
{
    if s.len() > 0 {
        escaped_holds_no_markup(s.drop_first());
        let e = escape_char(s[0]);
        let rest = escaped(s.drop_first());
        assert forall|i: int| 0 <= i < escaped(s).len() implies !is_markup_char(
            #[trigger] escaped(s)[i],
        ) by {
            if i >= e.len() {
                assert(escaped(s)[i] == rest[i - e.len()]);
            }
        }
    }
}

/// Multi-line escaping emits a `<` only as the start of a `<br>`, and never
/// a `"` or a `'`.
pub proof fn escaped_multiline_holds_only_line_breaks(s: Seq<char>)
    ensures
        forall|i: int|
            0 <= i < escaped_multiline(s).len() && #[trigger] escaped_multiline(s)[i] == '<'
                ==> i + 4 <= escaped_multiline(s).len() && escaped_multiline(s).subrange(i, i + 4)
                == seq!['<', 'b', 'r', '>'],
        forall|i: int|
            0 <= i < escaped_multiline(s).len() ==> #[trigger] escaped_multiline(s)[i] != '"'
                && escaped_multiline(s)[i] != '\'',
    decreases s.len(),
{
    if s.len() > 0 {
        escaped_multiline_holds_only_line_breaks(s.drop_first());
        let e = multiline_char(s[0]);
        let rest = escaped_multiline(s.drop_first());
        let all = escaped_multiline(s);
        assert(all == e + rest);
        assert forall|i: int| 0 <= i < all.len() && #[trigger] all[i] == '<' implies i + 4
            <= all.len() && all.subrange(i, i + 4) == seq!['<', 'b', 'r', '>'] by {
            if i >= e.len() {
                assert(all[i] == rest[i - e.len()]);
                assert(all.subrange(i, i + 4) =~= rest.subrange(i - e.len(), i - e.len() + 4));
            } else {
                assert(i == 0);
                assert(all.subrange(i, i + 4) =~= e);
            }
        }
        assert forall|i: int| 0 <= i < all.len() implies #[trigger] all[i] != '"' && all[i]
            != '\'' by {
            if i >= e.len() {
                assert(all[i] == rest[i - e.len()]);
            }
        }
    }
}

/// Reads HTML text back: the five entities that escaping writes become the
/// characters they stand for.
pub open spec fn unescaped(s: Seq<char>) -> Seq<char>
    decreases s.len(),
{
    if s.len() == 0 {
        Seq::empty()
    } else if s.len() >= 5 && s.take(5) == seq!['&', 'a', 'm', 'p', ';'] {
        seq!['&'] + unescaped(s.skip(5))
    } else if s.len() >= 4 && s.take(4) == seq!['&', 'l', 't', ';'] {
        seq!['<'] + unescaped(s.skip(4))
    } else if s.len() >= 4 && s.take(4) == seq!['&', 'g', 't', ';'] {
        seq!['>'] + unescaped(s.skip(4))
    } else if s.len() >= 6 && s.take(6) == seq!['&', 'q', 'u', 'o', 't', ';'] {
        seq!['"'] + unescaped(s.skip(6))
    } else if s.len() >= 5 && s.take(5) == seq!['&', '#', '3', '9', ';'] {
        seq!['\''] + unescaped(s.skip(5))
    } else {
        seq![s[0]] + unescaped(s.drop_first())
    }
}

/// Escaping loses nothing: reading the escaped text back gives the text
/// that was escaped, so two different comments never render alike.
pub proof fn escaped_reads_back(s: Seq<char>)
    ensures
        unescaped(escaped(s)) == s,
    decreases s.len(),
{
    if s.len() > 0 {
        escaped_reads_back(s.drop_first());
        let c = s[0];
        let e = escape_char(c);
        let rest = escaped(s.drop_first());
        let all = escaped(s);
        assert(all == e + rest);
        assert(all.skip(e.len() as int) =~= rest);
        assert(all[0] == e[0]);
        if e.len() > 1 {
            assert(all[1] == e[1]);
        }
        if c == '&' {
            assert(all.take(5) =~= e);
        } else if c == '<' {
            assert(all.take(4) =~= e);
            assert(all.len() >= 5 ==> all.take(5)[1] != seq!['&', 'a', 'm', 'p', ';'][1]);
        } else if c == '>' {
            assert(all.take(4) =~= e);
            assert(all.len() >= 5 ==> all.take(5)[1] != seq!['&', 'a', 'm', 'p', ';'][1]);
            assert(all.take(4)[1] != seq!['&', 'l', 't', ';'][1]);
        } else if c == '"' {
            assert(all.take(6) =~= e);
            assert(all.take(5)[1] != seq!['&', 'a', 'm', 'p', ';'][1]);
            assert(all.take(4)[1] != seq!['&', 'l', 't', ';'][1]);
            assert(all.take(4)[1] != seq!['&', 'g', 't', ';'][1]);
        } else if c == '\'' {
            assert(all.take(5) =~= e);
            assert(all.take(5)[1] != seq!['&', 'a', 'm', 'p', ';'][1]);
            assert(all.take(4)[1] != seq!['&', 'l', 't', ';'][1]);
            assert(all.take(4)[1] != seq!['&', 'g', 't', ';'][1]);
            assert(all.len() >= 6 ==> all.take(6)[1] != seq!['&', 'q', 'u', 'o', 't', ';'][1]);
        } else {
            assert(all[0] == c);
            assert(all.len() >= 5 ==> all.take(5)[0] != '&');
            assert(all.len() >= 4 ==> all.take(4)[0] != '&');
            assert(all.len() >= 6 ==> all.take(6)[0] != '&');
            assert(all.drop_first() =~= rest);
        }
        assert(seq![c] + s.drop_first() =~= s);
    }
}

} // verus!
