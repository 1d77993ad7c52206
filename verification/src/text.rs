//! Character-level text handling: whitespace, trimming, decimal numerals,
//! and the clean-up of documentation comments.
use vstd::prelude::*;

verus! {

// ---------------------------------------------------------------------------
// Whitespace and trimming
// ---------------------------------------------------------------------------

/// White space as the library's char classification knows it: the
/// controls `\t` to `\r`, the space, and the Unicode separators of the
/// categories Zs (spaces, U+180E MONGOLIAN VOWEL SEPARATOR among them), Zl
/// and Zp. U+0085 NEXT LINE is a control (Cc), not white space.
pub open spec fn is_white_space(c: char) -> bool {
    let u = c as u32;
    ||| 0x09 <= u <= 0x0d
    ||| u == 0x20
    ||| u == 0xa0
    ||| u == 0x1680
    ||| u == 0x180e
    ||| 0x2000 <= u <= 0x200a
    ||| u == 0x2028
    ||| u == 0x2029
    ||| u == 0x202f
    ||| u == 0x205f
    ||| u == 0x3000
}

/// Decides `is_white_space`.
pub fn is_whitespace(c: char) -> (r: bool)
    ensures
        r == is_white_space(c),
{
    let u = c as u32;
    (0x09 <= u && u <= 0x0d) || u == 0x20 || u == 0xa0 || u == 0x1680 || u == 0x180e || (0x2000
        <= u && u <= 0x200a) || u == 0x2028 || u == 0x2029 || u == 0x202f || u == 0x205f || u
        == 0x3000
}

/// `s` with its leading whitespace removed.
pub open spec fn trim_left(s: Seq<char>) -> Seq<char>
    decreases s.len(),
{
    if s.len() > 0 && is_white_space(s[0]) {
        trim_left(s.drop_first())
    } else {
        s
    }
}

/// `s` with its trailing whitespace removed.
pub open spec fn trim_right(s: Seq<char>) -> Seq<char>
    decreases s.len(),
{
    if s.len() > 0 && is_white_space(s.last()) {
        trim_right(s.drop_last())
    } else {
        s
    }
}

/// `s` with its leading and trailing whitespace removed.
pub open spec fn trim(s: Seq<char>) -> Seq<char> {
    trim_right(trim_left(s))
}

proof fn lemma_trim_left_shape(s: Seq<char>)
    ensures
        exists|i: int| 0 <= i <= s.len() && trim_left(s) == s.skip(i),
        trim_left(s).len() > 0 ==> !is_white_space(trim_left(s)[0]),
    decreases s.len(),
{
    if s.len() > 0 && is_white_space(s[0]) {
        lemma_trim_left_shape(s.drop_first());
        let i = choose|i: int| 0 <= i <= s.len() - 1 && trim_left(s.drop_first()) == s.drop_first().skip(i);
        assert(s.drop_first().skip(i) =~= s.skip(i + 1));
    } else {
        assert(s.skip(0) =~= s);
    }
}

proof fn lemma_trim_right_shape(s: Seq<char>)
    ensures
        exists|j: int| 0 <= j <= s.len() && trim_right(s) == s.take(j),
        trim_right(s).len() > 0 ==> !is_white_space(trim_right(s).last()),
    decreases s.len(),
{
    if s.len() > 0 && is_white_space(s.last()) {
        lemma_trim_right_shape(s.drop_last());
        let j = choose|j: int| 0 <= j <= s.len() - 1 && trim_right(s.drop_last()) == s.drop_last().take(j);
        assert(s.drop_last().take(j) =~= s.take(j));
    } else {
        assert(s.take(s.len() as int) =~= s);
    }
}

/// Trimmed text neither starts nor ends with whitespace.
pub proof fn lemma_trim_ends(s: Seq<char>)
    ensures
        trim(s).len() > 0 ==> !is_white_space(trim(s)[0]) && !is_white_space(trim(s).last()),
{
    let l = trim_left(s);
    lemma_trim_left_shape(s);
    lemma_trim_right_shape(l);
    let j = choose|j: int| 0 <= j <= l.len() && trim_right(l) == l.take(j);
    if trim(s).len() > 0 {
        assert(trim(s)[0] == l[0]);
    }
}

/// Trimming trimmed text changes nothing.
pub proof fn lemma_trim_idempotent(s: Seq<char>)
    ensures
        trim(trim(s)) == trim(s),
{
    let t = trim(s);
    lemma_trim_ends(s);
    assert(trim_left(t) == t);
    assert(trim_right(t) == t);
}

/// Appends one character to a string.
#[verifier::external_body]
pub(crate) fn push_char(s: &mut String, c: char)
    ensures
        final(s)@ == old(s)@.push(c),
{
    s.push(c);
}

/// The characters of a string slice, in order.
pub fn chars_of(s: &str) -> (r: Vec<char>)
    ensures
        r@ == s@,
{
    let mut v: Vec<char> = Vec::new();
    for c in it: s.chars()
        invariant
            it.seq() == s@,
            v@ == it.seq().take(it.index() as int),
    {
        v.push(c);
    }
    v
}

/// The string made of the characters `v[from..to]`.
pub fn string_of_range(v: &Vec<char>, from: usize, to: usize) -> (r: String)
    requires
        from <= to <= v@.len(),
    ensures
        r@ == v@.subrange(from as int, to as int),
{
    let mut s = String::new();
    let mut i = from;
    while i < to
        invariant
            from <= i <= to <= v@.len(),
            s@ == v@.subrange(from as int, i as int),
        decreases to - i,
    {
        push_char(&mut s, v[i]);
        assert(v@.subrange(from as int, i + 1) =~= v@.subrange(from as int, i as int).push(
            v@[i as int],
        ));
        i = i + 1;
    }
    s
}

/// The string made of the characters of `v`.
pub fn string_of(v: &Vec<char>) -> (r: String)
    ensures
        r@ == v@,
{
    let r = string_of_range(v, 0, v.len());
    assert(v@.subrange(0, v@.len() as int) =~= v@);
    r
}

/// `v[from..to]` with its leading and trailing whitespace removed.
pub fn trim_range(v: &Vec<char>, from: usize, to: usize) -> (r: String)
    requires
        from <= to <= v@.len(),
    ensures
        r@ == trim(v@.subrange(from as int, to as int)),
{
    let ghost s = v@.subrange(from as int, to as int);
    let mut i = from;
    while i < to && is_whitespace(v[i])
        invariant
            from <= i <= to <= v@.len(),
            trim_left(s) == trim_left(v@.subrange(i as int, to as int)),
        decreases to - i,
    {
        assert(v@.subrange(i as int, to as int).drop_first() =~= v@.subrange(i + 1, to as int));
        i = i + 1;
    }
    assert(trim_left(s) == v@.subrange(i as int, to as int));
    let ghost t = v@.subrange(i as int, to as int);
    let mut j = to;
    while j > i && is_whitespace(v[j - 1])
        invariant
            from <= i <= j <= to <= v@.len(),
            t == v@.subrange(i as int, to as int),
            trim_right(t) == trim_right(v@.subrange(i as int, j as int)),
        decreases j - i,
    {
        assert(v@.subrange(i as int, j as int).drop_last() =~= v@.subrange(i as int, j - 1));
        j = j - 1;
    }
    string_of_range(v, i, j)
}

/// `s` with its leading and trailing whitespace removed.
pub fn trim_str(s: &str) -> (r: String)
    ensures
        r@ == trim(s@),
        r@.len() > 0 ==> !is_white_space(r@[0]) && !is_white_space(r@.last()),
{
    proof {
        lemma_trim_ends(s@);
    }
    let v = chars_of(s);
    assert(v@.subrange(0, v@.len() as int) =~= v@);
    trim_range(&v, 0, v.len())
}

// ---------------------------------------------------------------------------
// Documentation comments
// ---------------------------------------------------------------------------

/// The states of the machine that strips the comment markers (`*`, `/`) and
/// the indentation that open each line of a documentation comment.
#[derive(Clone, Copy, PartialEq, Eq)]
pub enum CleanCommentStates {
    /// Inside the text of a line: every character is kept.
    Collect,
    /// At the start of a line: indentation is skipped, a marker is awaited.
    Strip,
    /// Just after a marker: one blank may follow and is dropped.
    Stripped,
}

/// One step of the machine: the next state and the characters kept.
pub open spec fn comment_step(state: CleanCommentStates, c: char) -> (CleanCommentStates, Seq<char>) {
    match (state, c) {
        (CleanCommentStates::Strip, '*') => (CleanCommentStates::Stripped, seq![]),
        (CleanCommentStates::Strip, '/') => (CleanCommentStates::Stripped, seq![]),
        (CleanCommentStates::Stripped, '/') => (CleanCommentStates::Stripped, seq![]),
        (CleanCommentStates::Strip, ' ') => (CleanCommentStates::Strip, seq![]),
        (CleanCommentStates::Strip, '\t') => (CleanCommentStates::Strip, seq![]),
        (CleanCommentStates::Stripped, ' ') => (CleanCommentStates::Collect, seq![]),
        (CleanCommentStates::Stripped, '\t') => (CleanCommentStates::Collect, seq![]),
        (_, '\n') => (CleanCommentStates::Strip, seq!['\n']),
        (_, c) => (state, seq![c]),
    }
}

/// The characters the machine keeps when it reads `s` from `state`.
pub open spec fn comment_run(state: CleanCommentStates, s: Seq<char>) -> Seq<char>
    decreases s.len(),
{
    if s.len() == 0 {
        seq![]
    } else {
        let (next, kept) = comment_step(state, s[0]);
        kept + comment_run(next, s.drop_first())
    }
}

/// The body of a documentation comment: the kept characters, trimmed, and a
/// closing newline.
pub open spec fn comment_body(s: Seq<char>) -> Seq<char> {
    trim(comment_run(CleanCommentStates::Strip, s)).push('\n')
}

/// The number of line breaks in `s`.
pub open spec fn newline_count(s: Seq<char>) -> nat
    decreases s.len(),
{
    if s.len() == 0 {
        0
    } else {
        (if s[0] == '\n' { 1nat } else { 0nat }) + newline_count(s.drop_first())
    }
}

proof fn lemma_newline_count_concat(a: Seq<char>, b: Seq<char>)
    ensures
        newline_count(a + b) == newline_count(a) + newline_count(b),
    decreases a.len(),
{
    if a.len() > 0 {
        lemma_newline_count_concat(a.drop_first(), b);
        assert((a + b).drop_first() =~= a.drop_first() + b);
    } else {
        assert(a + b =~= b);
    }
}

/// Stripping the comment markers keeps every line break: the stripped text
/// has as many lines as the comment.
pub proof fn lemma_comment_run_keeps_lines(state: CleanCommentStates, s: Seq<char>)
    ensures
        newline_count(comment_run(state, s)) == newline_count(s),
    decreases s.len(),
{
    if s.len() > 0 {
        let (next, kept) = comment_step(state, s[0]);
        lemma_comment_run_keeps_lines(next, s.drop_first());
        lemma_newline_count_concat(kept, comment_run(next, s.drop_first()));
        assert(kept.len() == 0 || kept.len() == 1);
        if kept.len() == 1 {
            assert(kept.drop_first() =~= Seq::<char>::empty());
            assert(kept[0] == s[0]);
            assert(newline_count(kept.drop_first()) == 0);
            assert(newline_count(kept) == if s[0] == '\n' { 1nat } else { 0nat });
        }
    }
}

/// Strips the comment markers and indentation from every line of `s`.
pub fn clean_comment_body(s: String) -> (r: String)
    ensures
        r@ == comment_body(s@),
{
    let v = chars_of(s.as_str());
    let mut kept: Vec<char> = Vec::new();
    let mut state = CleanCommentStates::Strip;
    let mut i: usize = 0;
    assert(v@.skip(0) =~= v@);
    assert(kept@ + comment_run(state, v@) =~= comment_run(state, v@));
    while i < v.len()
        invariant
            0 <= i <= v@.len(),
            v@ == s@,
            comment_run(CleanCommentStates::Strip, s@) == kept@ + comment_run(state, v@.skip(i as int)),
        decreases v@.len() - i,
    {
        let c = v[i];
        let ghost before = kept@;
        let ghost st = state;
        match (state, c) {
            (CleanCommentStates::Strip, '*') => state = CleanCommentStates::Stripped,
            (CleanCommentStates::Strip, '/') => state = CleanCommentStates::Stripped,
            (CleanCommentStates::Stripped, '/') => state = CleanCommentStates::Stripped,
            (CleanCommentStates::Strip, ' ') => {},
            (CleanCommentStates::Strip, '\t') => {},
            (CleanCommentStates::Stripped, ' ') => state = CleanCommentStates::Collect,
            (CleanCommentStates::Stripped, '\t') => state = CleanCommentStates::Collect,
            (_, '\n') => {
                kept.push(c);
                state = CleanCommentStates::Strip;
            },
            (_, c) => kept.push(c),
        }
        proof {
            let rest = v@.skip(i as int);
            assert(rest[0] == c);
            assert(rest.drop_first() =~= v@.skip(i + 1));
            assert(kept@ =~= before + comment_step(st, c).1);
            assert(state == comment_step(st, c).0);
        }
        i = i + 1;
    }
    assert(v@.skip(i as int) =~= Seq::<char>::empty());
    assert(kept@ =~= comment_run(CleanCommentStates::Strip, s@));
    let mut r = trim_range(&kept, 0, kept.len());
    assert(kept@.subrange(0, kept@.len() as int) =~= kept@);
    push_char(&mut r, '\n');
    r
}

/// The number of bytes that UTF-8 spends on `c`.
pub open spec fn utf8_width(c: char) -> nat {
    let u = c as u32;
    if u < 0x80 {
        1
    } else if u < 0x800 {
        2
    } else if u < 0x10000 {
        3
    } else {
        4
    }
}

/// Decides whether `c` takes one byte or two in UTF-8.
fn utf8_width_is(c: char, w: u32) -> (r: bool)
    requires
        w == 1 || w == 2,
    ensures
        r == (utf8_width(c) == w),
{
    let u = c as u32;
    if w == 1 {
        u < 0x80
    } else {
        0x80 <= u && u < 0x800
    }
}

/// `s` opens a line comment: `///`.
pub open spec fn opens_line_comment(s: Seq<char>) -> bool {
    s.len() >= 3 && s[0] == '/' && s[1] == '/' && s[2] == '/'
}

/// `s` opens a block comment: `/**` or `/*!`.
pub open spec fn opens_block_comment(s: Seq<char>) -> bool {
    s.len() >= 3 && s[0] == '/' && s[1] == '*' && (s[2] == '*' || s[2] == '!')
}

/// The first three bytes of `s` end on a character boundary.
pub open spec fn three_byte_prefix(s: Seq<char>) -> bool {
    ||| s.len() >= 3 && s[0] == '/' && utf8_width(s[1]) == 1 && utf8_width(s[2]) == 1
    ||| s.len() >= 2 && s[0] == '/' && utf8_width(s[1]) == 2
}

/// Where the text of a block comment ends: two bytes before the end of `s`,
/// when that is a character boundary at or after the opening marker.
pub open spec fn block_text_end(s: Seq<char>) -> Option<int> {
    let n = s.len() as int;
    if n >= 5 && utf8_width(s[n - 1]) == 1 && utf8_width(s[n - 2]) == 1 {
        Some(n - 2)
    } else if n >= 4 && utf8_width(s[n - 1]) == 2 {
        Some(n - 1)
    } else {
        None
    }
}

/// The inputs on which removing the comment markers can be done: a string
/// that starts with `/` has at least three bytes on a character boundary,
/// and a block comment has room for its closing two bytes.
pub open spec fn comment_tags_removable(s: Seq<char>) -> bool {
    s.len() > 0 && s[0] == '/' ==> {
        &&& three_byte_prefix(s)
        &&& opens_block_comment(s) ==> block_text_end(s) is Some
    }
}

/// The text of an attribute word or value with its comment markers removed:
/// `///` and the block openers `/**`, `/*!` (with the two closing bytes)
/// are dropped and the rest trimmed; any other text that starts with `/` is
/// trimmed; text that does not start with `/` is kept as it is.
pub open spec fn without_comment_tags(s: Seq<char>) -> Seq<char> {
    if s.len() > 0 && s[0] == '/' {
        if opens_line_comment(s) {
            trim(s.skip(3))
        } else if opens_block_comment(s) {
            trim(s.subrange(3, block_text_end(s)->0))
        } else {
            trim(s)
        }
    } else {
        s
    }
}

/// A line doc comment loses exactly its `///` marker: what is left is the
/// text after the first three characters, trimmed.
pub proof fn lemma_line_comment_loses_its_marker(t: Seq<char>)
    ensures
        without_comment_tags(seq!['/', '/', '/'] + t) == trim(t),
{
    let s = seq!['/', '/', '/'] + t;
    assert(s[0] == '/' && s[1] == '/' && s[2] == '/');
    assert(s.skip(3) =~= t);
}

/// A block doc comment, `/**` or `/*!` with the closing `*/`, loses exactly
/// its markers: what is left is the text between them, trimmed.
pub proof fn lemma_block_comment_loses_its_markers(t: Seq<char>, bang: bool)
    ensures
        without_comment_tags(
            seq!['/', '*', if bang { '!' } else { '*' }] + t + seq!['*', '/'],
        ) == trim(t),
{
    let s = seq!['/', '*', if bang { '!' } else { '*' }] + t + seq!['*', '/'];
    let n = s.len() as int;
    assert(s[0] == '/' && s[1] == '*');
    assert(s[n - 1] == '/' && s[n - 2] == '*');
    assert(utf8_width('/') == 1 && utf8_width('*') == 1);
    assert(block_text_end(s) == Some(n - 2));
    assert(s.subrange(3, n - 2) =~= t);
}

/// Text that does not start with `/` is no comment and is kept as it is.
pub proof fn lemma_plain_text_is_kept(s: Seq<char>)
    requires
        s.len() == 0 || s[0] != '/',
    ensures
        without_comment_tags(s) == s,
{
}

/// Text that starts with `/` but opens no doc comment keeps its characters
/// and is only trimmed.
pub proof fn lemma_other_slash_text_is_trimmed(s: Seq<char>)
    requires
        s.len() > 0,
        s[0] == '/',
        !opens_line_comment(s),
        !opens_block_comment(s),
    ensures
        without_comment_tags(s) == trim(s),
{
}

/// Trimming removes white space from the two ends and nothing else: the
/// result is a stretch of the text, everything before and after it is white
/// space, and it neither starts nor ends with white space.
pub proof fn lemma_trim_removes_only_white_space(s: Seq<char>)
    ensures
        exists|i: int, j: int|
            0 <= i <= j <= s.len() && trim(s) == s.subrange(i, j) && (forall|k: int|
                0 <= k < i ==> is_white_space(#[trigger] s[k])) && (forall|k: int|
                j <= k < s.len() ==> is_white_space(#[trigger] s[k])),
        trim(s).len() > 0 ==> !is_white_space(trim(s)[0]) && !is_white_space(trim(s).last()),
{
    lemma_trim_ends(s);
    let l = trim_left(s);
    lemma_trim_left_white(s);
    let i = choose|i: int|
        0 <= i <= s.len() && l == s.skip(i) && forall|k: int|
            0 <= k < i ==> is_white_space(#[trigger] s[k]);
    lemma_trim_right_white(l);
    let j = choose|j: int|
        0 <= j <= l.len() && trim_right(l) == l.take(j) && forall|k: int|
            j <= k < l.len() ==> is_white_space(#[trigger] l[k]);
    assert(trim(s) =~= s.subrange(i, i + j));
    assert forall|k: int| i + j <= k < s.len() implies is_white_space(#[trigger] s[k]) by {
        assert(s[k] == l[k - i]);
    }
}

proof fn lemma_trim_left_white(s: Seq<char>)
    ensures
        exists|i: int|
            0 <= i <= s.len() && trim_left(s) == s.skip(i) && forall|k: int|
                0 <= k < i ==> is_white_space(#[trigger] s[k]),
    decreases s.len(),
{
    if s.len() > 0 && is_white_space(s[0]) {
        lemma_trim_left_white(s.drop_first());
        let t = s.drop_first();
        let i = choose|i: int|
            0 <= i <= t.len() && trim_left(t) == t.skip(i) && forall|k: int|
                0 <= k < i ==> is_white_space(#[trigger] t[k]);
        assert(t.skip(i) =~= s.skip(i + 1));
        assert forall|k: int| 0 <= k < i + 1 implies is_white_space(#[trigger] s[k]) by {
            if k > 0 {
                assert(s[k] == t[k - 1]);
            }
        }
    } else {
        assert(s.skip(0) =~= s);
    }
}

proof fn lemma_trim_right_white(s: Seq<char>)
    ensures
        exists|j: int|
            0 <= j <= s.len() && trim_right(s) == s.take(j) && forall|k: int|
                j <= k < s.len() ==> is_white_space(#[trigger] s[k]),
    decreases s.len(),
{
    if s.len() > 0 && is_white_space(s.last()) {
        lemma_trim_right_white(s.drop_last());
        let t = s.drop_last();
        let j = choose|j: int|
            0 <= j <= t.len() && trim_right(t) == t.take(j) && forall|k: int|
                j <= k < t.len() ==> is_white_space(#[trigger] t[k]);
        assert(t.take(j) =~= s.take(j));
        assert forall|k: int| j <= k < s.len() implies is_white_space(#[trigger] s[k]) by {
            if k < s.len() - 1 {
                assert(s[k] == t[k]);
            }
        }
    } else {
        assert(s.take(s.len() as int) =~= s);
    }
}

/// Removes the comment markers from the text of an attribute.
pub fn remove_comment_tags(s: &str) -> (r: String)
    requires
        comment_tags_removable(s@),
    ensures
        r@ == without_comment_tags(s@),
{
    let v = chars_of(s);
    let n = v.len();
    if n > 0 && v[0] == '/' {
        if n >= 3 && v[1] == '/' && v[2] == '/' {
            trim_range(&v, 3, n)
        } else if n >= 3 && v[1] == '*' && (v[2] == '*' || v[2] == '!') {
            let end = if utf8_width_is(v[n - 1], 2) {
                n - 1
            } else {
                n - 2
            };
            trim_range(&v, 3, end)
        } else {
            assert(v@.subrange(0, n as int) =~= v@);
            trim_range(&v, 0, n)
        }
    } else {
        String::from_str(s)
    }
}

// ---------------------------------------------------------------------------
// Decimal numerals
// ---------------------------------------------------------------------------

/// The decimal digit for `d < 10`.
pub open spec fn digit_char(d: nat) -> char {
    if d == 0 { '0' }
    else if d == 1 { '1' }
    else if d == 2 { '2' }
    else if d == 3 { '3' }
    else if d == 4 { '4' }
    else if d == 5 { '5' }
    else if d == 6 { '6' }
    else if d == 7 { '7' }
    else if d == 8 { '8' }
    else { '9' }
}

/// The decimal numeral of `n`, without leading zeros.
pub open spec fn decimal(n: nat) -> Seq<char>
    decreases n,
{
    if n < 10 {
        seq![digit_char(n)]
    } else {
        decimal(n / 10).push(digit_char(n % 10))
    }
}

/// The decimal numeral of a signed integer, with `-` before a negative one.
pub open spec fn signed_decimal(i: int) -> Seq<char> {
    if i < 0 {
        seq!['-'] + decimal((-i) as nat)
    } else {
        decimal(i as nat)
    }
}

/// Whether `c` is one of the decimal digits `0` to `9`.
pub open spec fn is_digit(c: char) -> bool {
    '0' <= c <= '9'
}

/// The value of the decimal digit `c`.
pub open spec fn digit_value(c: char) -> int {
    (c as int) - ('0' as int)
}

/// The number that a string of decimal digits denotes, read left to right.
pub open spec fn decimal_value(s: Seq<char>) -> int
    decreases s.len(),
{
    if s.len() == 0 {
        0
    } else {
        decimal_value(s.drop_last()) * 10 + digit_value(s.last())
    }
}

/// The number that a numeral with an optional leading `-` denotes.
pub open spec fn signed_decimal_value(s: Seq<char>) -> int {
    if s.len() > 0 && s[0] == '-' {
        -decimal_value(s.drop_first())
    } else {
        decimal_value(s)
    }
}

proof fn lemma_digit_value(d: nat)
    requires
        d < 10,
    ensures
        is_digit(digit_char(d)),
        digit_value(digit_char(d)) == d,
        digit_char(d) == '0' ==> d == 0,
{
}

/// A decimal numeral reads back as the number it was written from: it is
/// a non-empty string of digits, with no leading zero unless it is `0`,
/// whose value is `n`.
pub proof fn lemma_decimal_round_trip(n: nat)
    ensures
        decimal(n).len() > 0,
        forall|k: int| 0 <= k < decimal(n).len() ==> is_digit(#[trigger] decimal(n)[k]),
        decimal(n)[0] == '0' ==> n == 0,
        decimal_value(decimal(n)) == n,
    decreases n,
{
    lemma_digit_value((n % 10) as nat);
    if n >= 10 {
        lemma_decimal_round_trip(n / 10);
        let d = decimal(n);
        assert(d.drop_last() =~= decimal(n / 10));
        assert(d[0] == decimal(n / 10)[0]);
        assert(decimal_value(d) == (n / 10) * 10 + n % 10);
        assert((n / 10) * 10 + n % 10 == n) by (nonlinear_arith);
    } else {
        assert(decimal(n).drop_last() =~= Seq::<char>::empty());
        assert(decimal_value(Seq::<char>::empty()) == 0);
        assert(n % 10 == n);
    }
}

/// Different numbers have different decimal numerals.
pub proof fn lemma_decimal_injective(a: nat, b: nat)
    requires
        decimal(a) == decimal(b),
    ensures
        a == b,
{
    lemma_decimal_round_trip(a);
    lemma_decimal_round_trip(b);
}

/// A signed numeral reads back as the integer it was written from, and
/// different integers have different signed numerals.
pub proof fn lemma_signed_decimal_round_trip(i: int, j: int)
    ensures
        signed_decimal_value(signed_decimal(i)) == i,
        signed_decimal(i) == signed_decimal(j) ==> i == j,
{
    lemma_decimal_round_trip((if i < 0 { -i } else { i }) as nat);
    if i < 0 {
        assert((seq!['-'] + decimal((-i) as nat)).drop_first() =~= decimal((-i) as nat));
    }
    lemma_decimal_round_trip((if j < 0 { -j } else { j }) as nat);
    if j < 0 {
        assert((seq!['-'] + decimal((-j) as nat)).drop_first() =~= decimal((-j) as nat));
    }
}

fn digit(d: u64) -> (c: char)
    requires
        d < 10,
    ensures
        c == digit_char(d as nat),
{
    match d {
        0 => '0',
        1 => '1',
        2 => '2',
        3 => '3',
        4 => '4',
        5 => '5',
        6 => '6',
        7 => '7',
        8 => '8',
        _ => '9',
    }
}

/// Appends the decimal numeral of `n` to `out`.
fn push_decimal(out: &mut String, n: u64)
    ensures
        final(out)@ == old(out)@ + decimal(n as nat),
    decreases n,
{
    if n >= 10 {
        push_decimal(out, n / 10);
        push_char(out, digit(n % 10));
    } else {
        push_char(out, digit(n));
    }
}

/// The decimal numeral of an unsigned integer.
pub fn u64_to_string(n: u64) -> (r: String)
    ensures
        r@ == decimal(n as nat),
{
    let mut r = String::new();
    push_decimal(&mut r, n);
    r
}

/// The decimal numeral of a signed integer.
pub fn i64_to_string(i: i64) -> (r: String)
    ensures
        r@ == signed_decimal(i as int),
{
    let mut r = String::new();
    if i < 0 {
        push_char(&mut r, '-');
        let m: u64 = ((-(i + 1)) as u64) + 1;
        push_decimal(&mut r, m);
    } else {
        push_decimal(&mut r, i as u64);
    }
    r
}

} // verus!
