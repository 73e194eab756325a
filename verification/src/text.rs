//! Character-level text handling: display widths, cutting text to a column
//! budget, whitespace collapsing and string building.

use vstd::prelude::*;

verus! {

// ---------------------------------------------------------------------------
// Display widths (unicode-width)
// ---------------------------------------------------------------------------

/// The column width that `unicode_width` assigns to a single `char`
/// (`None` for control characters).
pub uninterp spec fn unicode_char_width(c: char) -> Option<usize>;

/// The column width that `unicode_width` assigns to a whole string.
pub uninterp spec fn unicode_str_width(s: Seq<char>) -> usize;

/// Columns a char takes when text is cut to a budget: control characters
/// take none.
pub open spec fn char_cols(c: char) -> nat {
    match unicode_char_width(c) {
        Some(w) => w as nat,
        None => 0,
    }
}

/// Every char is printable ASCII (U+0020..U+007E).
pub open spec fn is_printable_ascii(s: Seq<char>) -> bool {
    forall|i: int| 0 <= i < s.len() ==> 0x20 <= (#[trigger] s[i] as u32) < 0x7f
}

/// Columns taken by a sequence of chars, char by char.
pub open spec fn text_cols(s: Seq<char>) -> nat
    decreases s.len(),
{
    if s.len() == 0 {
        0
    } else {
        text_cols(s.drop_last()) + char_cols(s.last())
    }
}

/// `UnicodeWidthChar::width` of unicode-width.  Its source gives printable
/// ASCII one column, control characters (below U+0020 and U+007F..U+009F)
/// `None`, and no char more than three columns; '•' (U+2022) and '…'
/// (U+2026) are East Asian Ambiguous punctuation, one column wide outside
/// an East Asian context.  The width of any other char is taken from the
/// crate's Unicode tables and is left to the name.
#[verifier::external_body]
pub(crate) fn char_width(c: char) -> (w: Option<usize>)
    ensures
        w == unicode_char_width(c),
        0x20 <= (c as u32) < 0x7f ==> w == Some(1usize),
        w is None <==> ((c as u32) < 0x20 || (0x7f <= (c as u32) && (c as u32) < 0xa0)),
        w matches Some(n) ==> n <= 3,
        c == '•' ==> w == Some(1usize),
        c == '…' ==> w == Some(1usize),
{
    unicode_width::UnicodeWidthChar::width(c)
}

/// `UnicodeWidthStr::width` of unicode-width: the displayed width of a whole
/// string.  It is the sum of the char widths except for the sequences the
/// crate documents (emoji sequences, ligatures, "\r\n"); of those rules
/// only the plainest is stated here: a string of printable ASCII is one
/// column per char (its source adds 1 for each such char and no sequence
/// rule starts from one).
#[verifier::external_body]
pub(crate) fn str_width(s: &str) -> (w: usize)
    ensures
        w == unicode_str_width(s@),
        is_printable_ascii(s@) ==> w == s@.len(),
{
    unicode_width::UnicodeWidthStr::width(s)
}

/// Columns of one char, control characters counting none.
pub fn char_columns(c: char) -> (w: usize)
    ensures
        w == char_cols(c),
        w <= 3,
{
    match char_width(c) {
        Some(n) => n,
        None => 0,
    }
}

pub proof fn lemma_text_cols_step(s: Seq<char>, i: int)
    requires
        0 <= i < s.len(),
    ensures
        text_cols(s.take(i + 1)) == text_cols(s.take(i)) + char_cols(s[i]),
{
    assert(s.take(i + 1).drop_last() =~= s.take(i));
}

/// Cutting more chars never takes fewer columns.
pub proof fn lemma_text_cols_monotone(s: Seq<char>, i: int, j: int)
    requires
        0 <= i <= j <= s.len(),
    ensures
        text_cols(s.take(i)) <= text_cols(s.take(j)),
    decreases j - i,
{
    if i < j {
        lemma_text_cols_step(s, j - 1);
        lemma_text_cols_monotone(s, i, j - 1);
    }
}

pub proof fn lemma_text_cols_concat(a: Seq<char>, b: Seq<char>)
    ensures
        text_cols(a + b) == text_cols(a) + text_cols(b),
    decreases b.len(),
{
    if b.len() > 0 {
        assert((a + b).drop_last() =~= a + b.drop_last());
        lemma_text_cols_concat(a, b.drop_last());
    } else {
        assert(a + b =~= a);
    }
}

// ---------------------------------------------------------------------------
// Cutting text to a column budget
// ---------------------------------------------------------------------------

/// `k` is where a greedy left-to-right cut of `text` to `max` columns stops:
/// the first `k` chars fit, the cut stops as soon as the budget is used up,
/// and it only stops early when the next char would not fit.
pub open spec fn is_cut(text: Seq<char>, max: nat, k: int) -> bool {
    &&& 0 <= k <= text.len()
    &&& text_cols(text.take(k)) <= max
    &&& (k == 0 || text_cols(text.take(k - 1)) < max)
    &&& (k == text.len() || text_cols(text.take(k)) == max || text_cols(text.take(k + 1)) > max)
}

/// The number of chars kept when `text` is cut to `max` columns.
pub open spec fn cut_len(text: Seq<char>, max: nat) -> int {
    choose|k: int| is_cut(text, max, k)
}

/// The chars kept when `text` is cut to `max` columns.
pub open spec fn cut_text(text: Seq<char>, max: nat) -> Seq<char> {
    text.take(cut_len(text, max))
}

/// Only one position satisfies `is_cut`.
pub proof fn lemma_cut_unique(text: Seq<char>, max: nat, k1: int, k2: int)
    requires
        is_cut(text, max, k1),
        is_cut(text, max, k2),
    ensures
        k1 == k2,
{
    if k1 < k2 {
        lemma_text_cols_monotone(text, k1, k2 - 1);
        lemma_text_cols_monotone(text, k1 + 1, k2);
    } else if k2 < k1 {
        lemma_text_cols_monotone(text, k2, k1 - 1);
        lemma_text_cols_monotone(text, k2 + 1, k1);
    }
}

proof fn lemma_cut_scan(text: Seq<char>, max: nat, i: int) -> (k: int)
    requires
        0 <= i <= text.len(),
        text_cols(text.take(i)) <= max,
        i == 0 || text_cols(text.take(i - 1)) < max,
    ensures
        is_cut(text, max, k),
    decreases text.len() - i,
{
    if i == text.len() || text_cols(text.take(i)) == max {
        i
    } else {
        lemma_text_cols_step(text, i);
        if text_cols(text.take(i + 1)) > max {
            i
        } else {
            lemma_cut_scan(text, max, i + 1)
        }
    }
}

/// The cut exists, so `cut_len` names it.
pub proof fn lemma_cut_len(text: Seq<char>, max: nat)
    ensures
        is_cut(text, max, cut_len(text, max)),
{
    assert(text.take(0) =~= Seq::<char>::empty());
    let k = lemma_cut_scan(text, max, 0);
    assert(is_cut(text, max, k));
}

/// Cuts `text` to at most `max_cols` columns, char by char.  Returns the
/// kept prefix, the rest, and the columns the prefix takes.  Cutting stops
/// at the first char that would not fit, or as soon as the budget is used
/// up exactly.
pub fn take_prefix_by_width(text: &str, max_cols: usize) -> (res: (String, &str, usize))
    ensures
        res.0@ == cut_text(text@, max_cols as nat),
        res.0@ + res.1@ == text@,
        res.2 == text_cols(res.0@),
        res.2 <= max_cols,
{
    let chars = to_chars(text);
    let n = chars.len();
    let mut cols: usize = 0;
    let mut end: usize = 0;
    let mut stop = false;
    proof {
        assert(text@.take(0) =~= Seq::<char>::empty());
    }
    while !stop && end < n
        invariant
            chars@ == text@,
            n == text@.len(),
            end <= n,
            cols == text_cols(text@.take(end as int)),
            cols <= max_cols,
            end == 0 || text_cols(text@.take(end - 1)) < max_cols,
            stop ==> (cols == max_cols || (end < n && text_cols(text@.take(end + 1)) > max_cols)),
        decreases n - end + (if stop { 0int } else { 1int }),
    {
        if cols == max_cols {
            stop = true;
        } else {
            let w = char_columns(chars[end]);
            proof {
                lemma_text_cols_step(text@, end as int);
            }
            if w > max_cols - cols {
                stop = true;
            } else {
                cols = cols + w;
                end = end + 1;
            }
        }
    }
    proof {
        assert(is_cut(text@, max_cols as nat, end as int));
        lemma_cut_len(text@, max_cols as nat);
        lemma_cut_unique(text@, max_cols as nat, end as int, cut_len(text@, max_cols as nat));
    }
    let prefix = String::from_str(text.substring_char(0, end));
    let rest = text.substring_char(end, n);
    proof {
        assert(prefix@ + rest@ =~= text@);
    }
    (prefix, rest, cols)
}

// ---------------------------------------------------------------------------
// Strings and chars
// ---------------------------------------------------------------------------

/// The chars of a string, in order.
pub fn to_chars(s: &str) -> (v: Vec<char>)
    ensures
        v@ == s@,
{
    broadcast use vstd::string::group_string_axioms;

    let mut v: Vec<char> = Vec::new();
    for c in it: s.chars()
        invariant
            v@ == it.seq().take(it.index() as int),
            it.seq() == s@,
    {
        v.push(c);
    }
    v
}

/// `String::push` of std: appends one char.
#[verifier::external_body]
pub(crate) fn push_char(s: &mut String, c: char)
    ensures
        final(s)@ == old(s)@.push(c),
{
    s.push(c)
}

/// Whether two strings hold the same chars.
pub fn same_text(a: &str, b: &str) -> (r: bool)
    ensures
        r == (a@ == b@),
{
    let x = to_chars(a);
    let y = to_chars(b);
    if x.len() != y.len() {
        return false;
    }
    let mut i: usize = 0;
    while i < x.len()
        invariant
            x@ == a@,
            y@ == b@,
            x.len() == y.len(),
            i <= x.len(),
            forall|j: int| 0 <= j < i ==> x@[j] == y@[j],
        decreases x.len() - i,
    {
        if x[i] != y[i] {
            return false;
        }
        i = i + 1;
    }
    proof {
        assert(a@ =~= b@);
    }
    true
}

// ---------------------------------------------------------------------------
// Whitespace
// ---------------------------------------------------------------------------

/// The Unicode `White_Space` property, which `char::is_whitespace` tests.
pub open spec fn is_white_space(c: char) -> bool {
    let u = c as u32;
    ||| 0x9 <= u <= 0xd
    ||| u == 0x20
    ||| u == 0x85
    ||| u == 0xa0
    ||| u == 0x1680
    ||| 0x2000 <= u <= 0x200a
    ||| u == 0x2028
    ||| u == 0x2029
    ||| u == 0x202f
    ||| u == 0x205f
    ||| u == 0x3000
}

/// Whether `c` has the Unicode `White_Space` property, as
/// `char::is_whitespace` tests it.
pub fn char_is_whitespace(c: char) -> (b: bool)
    ensures
        b == is_white_space(c),
{
    let u = c as u32;
    (0x9 <= u && u <= 0xd) || u == 0x20 || u == 0x85 || u == 0xa0 || u == 0x1680 || (0x2000 <= u
        && u <= 0x200a) || u == 0x2028 || u == 0x2029 || u == 0x202f || u == 0x205f || u == 0x3000
}

/// The maximal runs of non-whitespace chars of `s`, in order, as
/// `str::split_whitespace` yields them.
pub open spec fn ws_words(s: Seq<char>) -> Seq<Seq<char>>
    decreases s.len(),
{
    if s.len() == 0 {
        Seq::empty()
    } else {
        let words = ws_words(s.drop_last());
        let c = s.last();
        if is_white_space(c) {
            words
        } else if s.len() > 1 && !is_white_space(s[s.len() - 2]) {
            words.update(words.len() - 1, words.last().push(c))
        } else {
            words.push(seq![c])
        }
    }
}

/// Words joined by single spaces.
pub open spec fn join_words(words: Seq<Seq<char>>) -> Seq<char>
    decreases words.len(),
{
    if words.len() == 0 {
        Seq::empty()
    } else if words.len() == 1 {
        words[0]
    } else {
        join_words(words.drop_last()) + seq![' '] + words.last()
    }
}

/// `s` with leading and trailing whitespace dropped and every inner run of
/// whitespace replaced by one space.
pub open spec fn collapse_whitespace(s: Seq<char>) -> Seq<char> {
    join_words(ws_words(s))
}

/// The text holds no whitespace char at all.
pub open spec fn all_white_space(s: Seq<char>) -> bool {
    forall|i: int| 0 <= i < s.len() ==> is_white_space(#[trigger] s[i])
}

proof fn lemma_ws_words_nonempty(s: Seq<char>)
    requires
        s.len() > 0,
        !is_white_space(s.last()),
    ensures
        ws_words(s).len() > 0,
    decreases s.len(),
{
    if s.len() > 1 && !is_white_space(s[s.len() - 2]) {
        let p = s.drop_last();
        assert(p.last() == s[s.len() - 2]);
        lemma_ws_words_nonempty(p);
    }
}

proof fn lemma_join_extend_last(words: Seq<Seq<char>>, c: char)
    requires
        words.len() > 0,
    ensures
        join_words(words.update(words.len() - 1, words.last().push(c))) == join_words(words).push(c),
{
    let w2 = words.update(words.len() - 1, words.last().push(c));
    if words.len() > 1 {
        assert(w2.drop_last() =~= words.drop_last());
        assert(join_words(w2) =~= join_words(words).push(c));
    }
}

proof fn lemma_join_push(words: Seq<Seq<char>>, w: Seq<char>)
    ensures
        join_words(words.push(w)) == (if words.len() == 0 {
            w
        } else {
            join_words(words) + seq![' '] + w
        }),
{
    assert(words.push(w).drop_last() =~= words);
}

/// `tool.split_whitespace().collect::<Vec<_>>().join(" ")`.
pub fn collapse_ws(s: &str) -> (out: String)
    ensures
        out@ == collapse_whitespace(s@),
{
    let chars = to_chars(s);
    let mut out = String::new();
    let mut in_word = false;
    let mut started = false;
    let mut i: usize = 0;
    proof {
        assert(s@.take(0) =~= Seq::<char>::empty());
    }
    while i < chars.len()
        invariant
            chars@ == s@,
            i <= chars.len(),
            out@ == join_words(ws_words(s@.take(i as int))),
            (out@.len() == 0) == (ws_words(s@.take(i as int)).len() == 0),
            in_word == (i > 0 && !is_white_space(s@[i - 1])),
            started == (out@.len() > 0),
        decreases chars.len() - i,
    {
        let c = chars[i];
        let ghost pre = s@.take(i as int);
        let ghost post = s@.take(i + 1);
        proof {
            assert(post.drop_last() =~= pre);
            assert(post.last() == c);
            if i > 0 {
                assert(post[post.len() - 2] == s@[i - 1]);
            }
        }
        if char_is_whitespace(c) {
            in_word = false;
        } else if in_word {
            proof {
                lemma_ws_words_nonempty(pre);
                lemma_join_extend_last(ws_words(pre), c);
            }
            push_char(&mut out, c);
        } else {
            proof {
                lemma_join_push(ws_words(pre), seq![c]);
            }
            if started {
                push_char(&mut out, ' ');
            }
            push_char(&mut out, c);
            started = true;
            proof {
                assert(out@ =~= join_words(ws_words(post)));
            }
            in_word = true;
        }
        i = i + 1;
    }
    proof {
        assert(s@.take(chars.len() as int) =~= s@);
    }
    out
}

/// Whether `s.trim().is_empty()`: the string holds only whitespace.
pub fn is_blank(s: &str) -> (r: bool)
    ensures
        r == all_white_space(s@),
{
    let chars = to_chars(s);
    let mut i: usize = 0;
    while i < chars.len()
        invariant
            chars@ == s@,
            i <= chars.len(),
            forall|j: int| 0 <= j < i ==> is_white_space(#[trigger] s@[j]),
        decreases chars.len() - i,
    {
        if !char_is_whitespace(chars[i]) {
            return false;
        }
        i = i + 1;
    }
    true
}

/// A word: non-empty and free of whitespace.
pub open spec fn is_word(w: Seq<char>) -> bool {
    w.len() > 0 && forall|i: int| 0 <= i < w.len() ==> !is_white_space(#[trigger] w[i])
}

proof fn lemma_ws_words_are_words(s: Seq<char>)
    ensures
        forall|k: int| 0 <= k < ws_words(s).len() ==> is_word(#[trigger] ws_words(s)[k]),
    decreases s.len(),
{
    if s.len() > 0 {
        let prev = s.drop_last();
        lemma_ws_words_are_words(prev);
        let words = ws_words(prev);
        let c = s.last();
        if !is_white_space(c) && s.len() > 1 && !is_white_space(s[s.len() - 2]) {
            assert(prev.last() == s[s.len() - 2]);
            lemma_ws_words_nonempty(prev);
            let w = words.last().push(c);
            assert(is_word(words[words.len() - 1]));
            assert forall|i: int| 0 <= i < w.len() implies !is_white_space(#[trigger] w[i]) by {
                if i < w.len() - 1 {
                    assert(w[i] == words.last()[i]);
                }
            }
        } else if !is_white_space(c) {
            assert(is_word(seq![c]));
        }
    }
}

/// Text made of words joined by single spaces.
pub open spec fn is_single_spaced(t: Seq<char>) -> bool {
    &&& forall|i: int| 0 <= i < t.len() ==> (#[trigger] t[i] == ' ' || !is_white_space(t[i]))
    &&& (t.len() > 0 ==> t[0] != ' ' && t.last() != ' ')
    &&& forall|i: int| 0 <= i < t.len() - 1 && #[trigger] t[i] == ' ' ==> t[i + 1] != ' '
}

proof fn lemma_join_words_single_spaced(words: Seq<Seq<char>>)
    requires
        forall|k: int| 0 <= k < words.len() ==> is_word(#[trigger] words[k]),
    ensures
        is_single_spaced(join_words(words)),
        words.len() > 0 ==> join_words(words).len() > 0,
    decreases words.len(),
{
    if words.len() == 1 {
        assert(is_word(words[0]));
    } else if words.len() > 1 {
        let prev = words.drop_last();
        assert forall|k: int| 0 <= k < prev.len() implies is_word(#[trigger] prev[k]) by {
            assert(prev[k] == words[k]);
        }
        lemma_join_words_single_spaced(prev);
        let a = join_words(prev);
        let w = words.last();
        assert(is_word(words[words.len() - 1]));
        let t = a + seq![' '] + w;
        assert(join_words(words) == t);
        assert forall|i: int| 0 <= i < t.len() implies (#[trigger] t[i] == ' ' || !is_white_space(
            t[i],
        )) by {
            if i < a.len() {
                assert(t[i] == a[i]);
            } else if i > a.len() {
                assert(t[i] == w[i - a.len() - 1]);
            }
        }
        assert(t[0] == a[0]);
        assert(t.last() == w[w.len() - 1]);
        assert forall|i: int| 0 <= i < t.len() - 1 && #[trigger] t[i] == ' ' implies t[i + 1]
            != ' ' by {
            if i + 1 < a.len() {
                assert(t[i] == a[i] && t[i + 1] == a[i + 1]);
            } else if i + 1 == a.len() {
                assert(t[i] == a.last());
            } else if i == a.len() {
                assert(t[i + 1] == w[0]);
            } else {
                assert(t[i] == w[i - a.len() - 1]);
            }
        }
    }
}

/// Collapsing whitespace leaves words joined by single spaces: no other
/// whitespace, no space at either end, no two spaces in a row; and a text
/// with any non-whitespace char keeps some text.
pub proof fn lemma_collapse_whitespace_single_spaced(s: Seq<char>)
    ensures
        is_single_spaced(collapse_whitespace(s)),
        (exists|i: int| 0 <= i < s.len() && !is_white_space(#[trigger] s[i])) ==> collapse_whitespace(
            s,
        ).len() > 0,
        all_white_space(s) ==> collapse_whitespace(s).len() == 0,
{
    lemma_ws_words_are_words(s);
    lemma_join_words_single_spaced(ws_words(s));
    if exists|i: int| 0 <= i < s.len() && !is_white_space(#[trigger] s[i]) {
        let i = choose|i: int| 0 <= i < s.len() && !is_white_space(#[trigger] s[i]);
        lemma_ws_words_nonempty(s.take(i + 1));
        lemma_ws_words_prefix_grows(s, i + 1);
    }
    if all_white_space(s) {
        lemma_all_white_no_words(s);
    }
}

proof fn lemma_ws_words_prefix_grows(s: Seq<char>, n: int)
    requires
        0 <= n <= s.len(),
    ensures
        ws_words(s.take(n)).len() <= ws_words(s).len(),
    decreases s.len() - n,
{
    if n < s.len() {
        lemma_ws_words_prefix_grows(s, n + 1);
        assert(s.take(n + 1).drop_last() =~= s.take(n));
    } else {
        assert(s.take(n) =~= s);
    }
}

proof fn lemma_all_white_no_words(s: Seq<char>)
    requires
        all_white_space(s),
    ensures
        ws_words(s).len() == 0,
    decreases s.len(),
{
    if s.len() > 0 {
        assert(s.last() == s[s.len() - 1]);
        assert(all_white_space(s.drop_last()));
        lemma_all_white_no_words(s.drop_last());
    }
}

} // verus!
