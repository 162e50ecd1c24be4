//! Character-level string helpers shared by the rest of the crate, each
//! specified over the `Seq<char>` view of the strings it handles.

use vstd::prelude::*;
use vstd::string::*;

verus! {

// ---------------------------------------------------------------------------
// Building strings
// ---------------------------------------------------------------------------

/// Appends one character (std's `String::push`).
#[verifier::external_body]
pub(crate) fn push_char(s: &mut String, c: char)
    ensures
        final(s)@ == old(s)@.push(c),
{
    s.push(c);
}

/// Appends every character of `chars`, in order.
pub fn push_chars(s: &mut String, chars: &[char])
    ensures
        final(s)@ == old(s)@ + chars@,
{
    let ghost start = s@;
    for i in 0..chars.len()
        invariant
            s@ == start + chars@.take(i as int),
    {
        push_char(s, chars[i]);
        assert(chars@.take(i + 1) =~= chars@.take(i as int).push(chars@[i as int]));
    }
    assert(chars@.take(chars.len() as int) =~= chars@);
}

/// An owned copy of a character sequence.
pub fn string_of(chars: &[char]) -> (r: String)
    ensures
        r@ == chars@,
{
    let mut r = String::new();
    push_chars(&mut r, chars);
    assert(r@ =~= chars@);
    r
}

/// An owned copy of `chars[from..to]`.
pub fn string_of_range(chars: &[char], from: usize, to: usize) -> (r: String)
    requires
        from <= to <= chars@.len(),
    ensures
        r@ == chars@.subrange(from as int, to as int),
{
    let mut r = String::new();
    for i in from..to
        invariant
            to <= chars@.len(),
            r@ == chars@.subrange(from as int, i as int),
    {
        push_char(&mut r, chars[i]);
        assert(chars@.subrange(from as int, i + 1) =~= chars@.subrange(from as int, i as int).push(chars@[i as int]));
    }
    r
}

/// An owned copy of `s`.
pub fn owned(s: &str) -> (r: String)
    ensures
        r@ == s@,
{
    s.to_owned()
}

/// The characters of `s`, in order.
pub fn chars_of(s: &str) -> (v: Vec<char>)
    ensures
        v@ == s@,
{
    let mut v: Vec<char> = Vec::new();
    for c in it: s.chars()
        invariant
            v@ == it.seq().take(it.index() as int),
            it.seq() == s@,
    {
        v.push(c);
    }
    v
}

/// The character view of an optional string slice.
pub open spec fn opt_str(o: Option<&str>) -> Option<Seq<char>> {
    match o {
        Some(s) => Some(s@),
        None => None,
    }
}

/// The character view of an optional owned string.
pub open spec fn opt_string(o: Option<String>) -> Option<Seq<char>> {
    match o {
        Some(s) => Some(s@),
        None => None,
    }
}

/// A copy of an optional string.
pub fn copy_opt(o: &Option<String>) -> (r: Option<String>)
    ensures
        r == *o,
{
    match o {
        Some(s) => Some(s.clone()),
        None => None,
    }
}

/// An optional string borrowed as a slice.
pub fn opt_as_str(o: &Option<String>) -> (r: Option<&str>)
    ensures
        opt_str(r) == opt_string(*o),
{
    match o {
        Some(s) => Some(s.as_str()),
        None => None,
    }
}

// ---------------------------------------------------------------------------
// Comparing
// ---------------------------------------------------------------------------

/// Whether two strings hold the same characters.
pub fn str_eq(a: &str, b: &str) -> (r: bool)
    ensures
        r == (a@ == b@),
{
    let x = chars_of(a);
    let y = chars_of(b);
    if x.len() != y.len() {
        return false;
    }
    for i in 0..x.len()
        invariant
            x@ == a@,
            y@ == b@,
            x@.len() == y@.len(),
            forall|j: int| 0 <= j < i ==> x@[j] == y@[j],
    {
        if x[i] != y[i] {
            return false;
        }
    }
    assert(a@ =~= b@);
    true
}

/// Whether `p` is a prefix of `s`.
pub open spec fn has_prefix(s: Seq<char>, p: Seq<char>) -> bool {
    p.len() <= s.len() && s.subrange(0, p.len() as int) == p
}

/// Whether `needle` occurs in `s` starting at position `i`.
pub open spec fn occurs_at(s: Seq<char>, needle: Seq<char>, i: int) -> bool {
    0 <= i && i + needle.len() <= s.len() && s.subrange(i, i + needle.len()) == needle
}

/// Whether `needle` occurs anywhere in `s`.
pub open spec fn contains_seq(s: Seq<char>, needle: Seq<char>) -> bool {
    exists|i: int| occurs_at(s, needle, i)
}

/// A sequence contains itself.
pub proof fn lemma_contains_self(x: Seq<char>)
    ensures
        contains_seq(x, x),
{
    assert(x.subrange(0, x.len() as int) =~= x);
    assert(occurs_at(x, x, 0));
}

/// What `a` contains, `a + b` contains too.
pub proof fn lemma_contains_in_left(a: Seq<char>, b: Seq<char>, x: Seq<char>)
    requires
        contains_seq(a, x),
    ensures
        contains_seq(a + b, x),
{
    let i = choose|i: int| occurs_at(a, x, i);
    assert((a + b).subrange(i, i + x.len()) =~= a.subrange(i, i + x.len()));
    assert(occurs_at(a + b, x, i));
}

/// What `b` contains, `a + b` contains too.
pub proof fn lemma_contains_in_right(a: Seq<char>, b: Seq<char>, x: Seq<char>)
    requires
        contains_seq(b, x),
    ensures
        contains_seq(a + b, x),
{
    let i = choose|i: int| occurs_at(b, x, i);
    let j = a.len() + i;
    assert((a + b).subrange(j, j + x.len()) =~= b.subrange(i, i + x.len()));
    assert(occurs_at(a + b, x, j));
}

/// Containment is transitive.
pub proof fn lemma_contains_trans(a: Seq<char>, b: Seq<char>, c: Seq<char>)
    requires
        contains_seq(a, b),
        contains_seq(b, c),
    ensures
        contains_seq(a, c),
{
    let i = choose|i: int| occurs_at(a, b, i);
    let j = choose|j: int| occurs_at(b, c, j);
    assert forall|t: int| 0 <= t < c.len() implies a[i + j + t] == c[t] by {
        assert(a.subrange(i, i + b.len())[j + t] == b[j + t]);
        assert(b.subrange(j, j + c.len())[t] == c[t]);
    }
    assert(a.subrange(i + j, i + j + c.len()) =~= c);
    assert(occurs_at(a, c, i + j));
}

fn matches_at(s: &Vec<char>, p: &Vec<char>, at: usize) -> (r: bool)
    requires
        at + p@.len() <= s@.len(),
    ensures
        r == (s@.subrange(at as int, at + p@.len()) == p@),
{
    for i in 0..p.len()
        invariant
            at + p.len() <= s.len(),
            forall|j: int| 0 <= j < i ==> s@[at + j] == p@[j],
    {
        if s[at + i] != p[i] {
            assert(s@.subrange(at as int, at + p@.len())[i as int] != p@[i as int]);
            return false;
        }
    }
    assert(s@.subrange(at as int, at + p@.len()) =~= p@);
    true
}

/// Whether `s` starts with `p`.
pub fn starts_with(s: &str, p: &str) -> (r: bool)
    ensures
        r == has_prefix(s@, p@),
{
    let x = chars_of(s);
    let y = chars_of(p);
    if y.len() > x.len() {
        return false;
    }
    matches_at(&x, &y, 0)
}

/// Whether `needle` occurs in `s`.
pub fn contains_str(s: &str, needle: &str) -> (r: bool)
    ensures
        r == contains_seq(s@, needle@),
{
    let x = chars_of(s);
    let y = chars_of(needle);
    if y.len() > x.len() {
        return false;
    }
    if y.len() == 0 {
        assert(s@.subrange(0, 0) =~= needle@);
        assert(occurs_at(s@, needle@, 0));
        return true;
    }
    let last = x.len() - y.len();
    let mut i: usize = 0;
    while i <= last
        invariant
            x@ == s@,
            y@ == needle@,
            last == x@.len() - y@.len(),
            last < x.len(),
            i <= last + 1,
            forall|j: int| 0 <= j < i ==> !occurs_at(s@, needle@, j),
        decreases last + 1 - i,
    {
        if matches_at(&x, &y, i) {
            assert(occurs_at(s@, needle@, i as int));
            return true;
        }
        i = i + 1;
    }
    assert forall|j: int| !occurs_at(s@, needle@, j) by {
        if 0 <= j && j + needle@.len() <= s@.len() {
            assert(j < i);
        }
    }
    false
}

/// Whether `c` occurs in `s`.
pub fn contains_char(s: &str, c: char) -> (r: bool)
    ensures
        r == s@.contains(c),
{
    let x = chars_of(s);
    for i in 0..x.len()
        invariant
            x@ == s@,
            forall|j: int| 0 <= j < i ==> x@[j] != c,
    {
        if x[i] == c {
            assert(s@[i as int] == c);
            return true;
        }
    }
    false
}

/// The part of `s` before the first `sep` (all of `s` when there is none),
/// which is what `s.split(sep).next()` yields.
pub open spec fn before_first(s: Seq<char>, sep: char) -> Seq<char>
    decreases s.len(),
{
    if s.len() == 0 {
        s
    } else if s[0] == sep {
        Seq::empty()
    } else {
        seq![s[0]] + before_first(s.drop_first(), sep)
    }
}

proof fn lemma_before_first_step(s: Seq<char>, sep: char, i: int)
    requires
        0 <= i < s.len(),
        forall|j: int| 0 <= j < i ==> s[j] != sep,
    ensures
        s[i] == sep ==> before_first(s, sep) == s.take(i),
        s[i] != sep ==> forall|j: int| 0 <= j < i + 1 ==> s[j] != sep,
    decreases i,
{
    if i > 0 {
        lemma_before_first_step(s.drop_first(), sep, i - 1);
        assert(s.take(i) =~= seq![s[0]] + s.drop_first().take(i - 1));
    }
}

proof fn lemma_before_first_none(s: Seq<char>, sep: char)
    requires
        !s.contains(sep),
    ensures
        before_first(s, sep) == s,
    decreases s.len(),
{
    if s.len() > 0 {
        assert(!s.drop_first().contains(sep)) by {
            if s.drop_first().contains(sep) {
                let k = choose|k: int| 0 <= k < s.drop_first().len() && s.drop_first()[k] == sep;
                assert(s[k + 1] == sep);
            }
        }
        lemma_before_first_none(s.drop_first(), sep);
        assert(s =~= seq![s[0]] + s.drop_first());
    }
}

/// What precedes the first `sep` in `s` (`s.split(sep).next()`).
pub fn prefix_before(s: &str, sep: char) -> (r: String)
    ensures
        r@ == before_first(s@, sep),
{
    let x = chars_of(s);
    let mut i: usize = 0;
    while i < x.len()
        invariant
            x@ == s@,
            i <= x@.len(),
            forall|j: int| 0 <= j < i ==> x@[j] != sep,
        decreases x@.len() - i,
    {
        proof {
            lemma_before_first_step(s@, sep, i as int);
        }
        if x[i] == sep {
            let r = string_of_range(x.as_slice(), 0, i);
            assert(s@.take(i as int) =~= s@.subrange(0, i as int));
            return r;
        }
        i = i + 1;
    }
    proof {
        lemma_before_first_none(s@, sep);
    }
    string_of(x.as_slice())
}

// ---------------------------------------------------------------------------
// Whitespace, trimming and case
// ---------------------------------------------------------------------------

/// The Unicode `White_Space` property, which is what `char::is_whitespace`
/// tests and what `str::trim` and `str::split_whitespace` split on.
pub open spec fn is_white_space(c: char) -> bool {
    let n = c as u32;
    ||| 0x09 <= n <= 0x0D
    ||| n == 0x20
    ||| n == 0x85
    ||| n == 0xA0
    ||| n == 0x1680
    ||| 0x2000 <= n <= 0x200A
    ||| n == 0x2028
    ||| n == 0x2029
    ||| n == 0x202F
    ||| n == 0x205F
    ||| n == 0x3000
}

/// Whether `c` is Unicode white space.
pub fn white_space(c: char) -> (r: bool)
    ensures
        r == is_white_space(c),
{
    let n = c as u32;
    (0x09 <= n && n <= 0x0D) || n == 0x20 || n == 0x85 || n == 0xA0 || n == 0x1680 || (0x2000
        <= n && n <= 0x200A) || n == 0x2028 || n == 0x2029 || n == 0x202F || n == 0x205F || n
        == 0x3000
}

/// `s` without its leading white space.
pub open spec fn trim_start_seq(s: Seq<char>) -> Seq<char>
    decreases s.len(),
{
    if s.len() > 0 && is_white_space(s[0]) {
        trim_start_seq(s.drop_first())
    } else {
        s
    }
}

/// `s` without its trailing white space.
pub open spec fn trim_end_seq(s: Seq<char>) -> Seq<char>
    decreases s.len(),
{
    if s.len() > 0 && is_white_space(s.last()) {
        trim_end_seq(s.drop_last())
    } else {
        s
    }
}

/// `s` without leading and trailing white space (`str::trim`).
pub open spec fn trimmed(s: Seq<char>) -> Seq<char> {
    trim_end_seq(trim_start_seq(s))
}

proof fn lemma_trim_start_skip(s: Seq<char>, i: int)
    requires
        0 <= i < s.len(),
        is_white_space(s[i]),
    ensures
        trim_start_seq(s.subrange(i, s.len() as int)) == trim_start_seq(
            s.subrange(i + 1, s.len() as int),
        ),
{
    assert(s.subrange(i, s.len() as int).drop_first() =~= s.subrange(i + 1, s.len() as int));
}

proof fn lemma_trim_end_skip(s: Seq<char>, i: int, j: int)
    requires
        0 <= i < j <= s.len(),
        is_white_space(s[j - 1]),
    ensures
        trim_end_seq(s.subrange(i, j)) == trim_end_seq(s.subrange(i, j - 1)),
{
    assert(s.subrange(i, j).drop_last() =~= s.subrange(i, j - 1));
}

/// Bounds `(i, j)` such that `s[i..j]` is `s` with leading white space
/// removed and then, when `both` holds, trailing white space too.
fn trim_bounds(x: &Vec<char>, both: bool) -> (r: (usize, usize))
    ensures
        r.0 <= r.1 <= x@.len(),
        x@.subrange(r.0 as int, r.1 as int) == (if both {
            trimmed(x@)
        } else {
            trim_end_seq(x@)
        }),
{
    let n = x.len();
    let mut i: usize = 0;
    assert(x@.subrange(0, n as int) =~= x@);
    if both {
        while i < n && white_space(x[i])
            invariant
                n == x@.len(),
                i <= n,
                trim_start_seq(x@) == trim_start_seq(x@.subrange(i as int, n as int)),
            decreases n - i,
        {
            proof {
                lemma_trim_start_skip(x@, i as int);
            }
            i = i + 1;
        }
        assert(trim_start_seq(x@.subrange(i as int, n as int)) == x@.subrange(i as int, n as int));
    }
    let mut j: usize = n;
    while j > i && white_space(x[j - 1])
        invariant
            n == x@.len(),
            i <= j <= n,
            trim_end_seq(x@.subrange(i as int, n as int)) == trim_end_seq(
                x@.subrange(i as int, j as int),
            ),
        decreases j,
    {
        proof {
            lemma_trim_end_skip(x@, i as int, j as int);
        }
        j = j - 1;
    }
    (i, j)
}

proof fn lemma_trim_start_shape(s: Seq<char>)
    ensures
        trim_start_seq(s).len() <= s.len(),
        s.subrange(s.len() - trim_start_seq(s).len(), s.len() as int) == trim_start_seq(s),
        trim_start_seq(s).len() > 0 ==> !is_white_space(trim_start_seq(s)[0]),
    decreases s.len(),
{
    if s.len() > 0 && is_white_space(s[0]) {
        lemma_trim_start_shape(s.drop_first());
        let t = trim_start_seq(s);
        assert(s.subrange(s.len() - t.len(), s.len() as int) =~= s.drop_first().subrange(
            s.drop_first().len() - t.len(),
            s.drop_first().len() as int,
        ));
    } else {
        assert(s.subrange(0, s.len() as int) =~= s);
    }
}

proof fn lemma_trim_end_shape(s: Seq<char>)
    ensures
        trim_end_seq(s).len() <= s.len(),
        trim_end_seq(s) == s.take(trim_end_seq(s).len() as int),
        trim_end_seq(s).len() > 0 ==> !is_white_space(trim_end_seq(s).last()),
    decreases s.len(),
{
    if s.len() > 0 && is_white_space(s.last()) {
        lemma_trim_end_shape(s.drop_last());
        let t = trim_end_seq(s);
        assert(s.take(t.len() as int) =~= s.drop_last().take(t.len() as int));
    } else {
        assert(s.take(s.len() as int) =~= s);
    }
}

/// Trimming twice is trimming once.
pub proof fn trimmed_is_idempotent(s: Seq<char>)
    ensures
        trimmed(trimmed(s)) == trimmed(s),
{
    let a = trim_start_seq(s);
    let t = trim_end_seq(a);
    lemma_trim_start_shape(s);
    lemma_trim_end_shape(a);
    // t starts where a starts, so it has no leading white space...
    if t.len() > 0 {
        assert(t[0] == a[0]);
    }
    assert(trim_start_seq(t) == t);
    // ...and it has no trailing white space either.
    assert(trim_end_seq(t) == t);
}

/// `s` without leading and trailing white space.
pub fn trim(s: &str) -> (r: String)
    ensures
        r@ == trimmed(s@),
{
    let x = chars_of(s);
    let (i, j) = trim_bounds(&x, true);
    string_of_range(x.as_slice(), i, j)
}

/// `s` without trailing white space.
pub fn trim_end(s: &str) -> (r: String)
    ensures
        r@ == trim_end_seq(s@),
{
    let x = chars_of(s);
    let (i, j) = trim_bounds(&x, false);
    string_of_range(x.as_slice(), i, j)
}

/// `c` with ASCII upper-case letters mapped to lower case.
pub open spec fn ascii_lower(c: char) -> char {
    if 'A' <= c <= 'Z' {
        ((c as u32) + 32) as char
    } else {
        c
    }
}

/// `s` with every ASCII upper-case letter mapped to lower case
/// (`str::to_ascii_lowercase`).
pub open spec fn ascii_lowercase(s: Seq<char>) -> Seq<char> {
    s.map_values(|c: char| ascii_lower(c))
}

/// `s` with ASCII letters lower-cased.
pub fn to_ascii_lowercase(s: &str) -> (r: String)
    ensures
        r@ == ascii_lowercase(s@),
{
    let x = chars_of(s);
    let mut r = String::new();
    for i in 0..x.len()
        invariant
            x@ == s@,
            r@ == ascii_lowercase(s@.take(i as int)),
    {
        let c = x[i];
        let l = if 'A' <= c && c <= 'Z' {
            let n = (c as u32) + 32;
            assert(0x61 <= n <= 0x7A);
            n as u8 as char
        } else {
            c
        };
        assert(l == ascii_lower(c));
        push_char(&mut r, l);
        assert(ascii_lowercase(s@.take(i + 1)) =~= ascii_lowercase(s@.take(i as int)).push(l));
    }
    assert(s@.take(x.len() as int) =~= s@);
    r
}

// ---------------------------------------------------------------------------
// Words
// ---------------------------------------------------------------------------

/// The maximal runs of non-white-space characters of `s`, in order
/// (`str::split_whitespace`).
pub open spec fn words(s: Seq<char>) -> Seq<Seq<char>>
    decreases s.len(),
{
    if s.len() == 0 {
        Seq::empty()
    } else {
        let w = words(s.drop_last());
        let c = s.last();
        if is_white_space(c) {
            w
        } else if s.len() >= 2 && !is_white_space(s[s.len() - 2]) {
            w.update(w.len() - 1, w.last().push(c))
        } else {
            w.push(seq![c])
        }
    }
}

/// Words joined by single spaces.
pub open spec fn join_words(w: Seq<Seq<char>>) -> Seq<char>
    decreases w.len(),
{
    if w.len() == 0 {
        Seq::empty()
    } else if w.len() == 1 {
        w[0]
    } else {
        join_words(w.drop_last()).push(' ') + w.last()
    }
}

/// `s` with every run of white space made a single space and none at either
/// end (`s.split_whitespace().collect::<Vec<_>>().join(" ")`).
pub open spec fn collapsed(s: Seq<char>) -> Seq<char> {
    join_words(words(s))
}

/// `s` with its white space collapsed.
pub fn collapse_whitespace(s: &str) -> (r: String)
    ensures
        r@ == collapsed(s@),
{
    let x = chars_of(s);
    let mut out = String::new();
    let mut in_word = false;
    let mut any_word = false;
    for i in 0..x.len()
        invariant
            x@ == s@,
            out@ == join_words(words(s@.take(i as int))),
            any_word == (words(s@.take(i as int)).len() > 0),
            in_word == (i > 0 && !is_white_space(s@[i - 1])),
            in_word ==> any_word,
    {
        let c = x[i];
        let ghost p = s@.take(i as int);
        let ghost w = words(p);
        assert(s@.take(i + 1).drop_last() =~= p);
        assert(s@.take(i + 1).last() == c);
        if white_space(c) {
            in_word = false;
        } else if in_word {
            proof {
                assert(s@.take(i + 1)[i - 1] == s@[i - 1]);
                let w2 = w.update(w.len() - 1, w.last().push(c));
                assert(words(s@.take(i + 1)) == w2);
                if w.len() == 1 {
                    assert(join_words(w2) == w2[0]);
                } else {
                    assert(w2.drop_last() =~= w.drop_last());
                    assert(join_words(w2) == join_words(w.drop_last()).push(' ') + w2.last());
                }
                assert(join_words(w2) =~= join_words(w).push(c));
            }
            push_char(&mut out, c);
        } else {
            proof {
                if i > 0 {
                    assert(s@.take(i + 1)[i - 1] == s@[i - 1]);
                }
                let w2 = w.push(seq![c]);
                assert(words(s@.take(i + 1)) == w2);
                assert(w2.drop_last() =~= w);
            }
            if any_word {
                push_char(&mut out, ' ');
            }
            push_char(&mut out, c);
            proof {
                let w2 = w.push(seq![c]);
                if w.len() == 0 {
                    assert(join_words(w2) =~= seq![c]);
                } else {
                    assert(join_words(w2) =~= join_words(w).push(' ').push(c));
                }
            }
            in_word = true;
            any_word = true;
        }
    }
    assert(s@.take(x.len() as int) =~= s@);
    out
}

} // verus!
