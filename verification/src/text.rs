//! Words of a header line: runs of characters between white space.

use vstd::prelude::*;

verus! {

broadcast use vstd::string::group_string_axioms;

/// Whether `c` has the Unicode property `White_Space`.
pub open spec fn is_space(c: char) -> bool {
    let n = c as u32;
    ||| 0x09 <= n <= 0x0D
    ||| n == 0x20
    ||| n == 0x85
    ||| n == 0xA0
    ||| n == 0x1680
    ||| 0x2000 <= n <= 0x200A
    ||| n == 0x2028
    ||| n == 0x2029
    ||| n == 0x202F
    ||| n == 0x205F
    ||| n == 0x3000
}

/// The first position at or after `from` that holds no white space, or the
/// length of `s` where only white space follows.
pub open spec fn skip_spaces(s: Seq<char>, from: int) -> int
    decreases s.len() - from,
{
    if 0 <= from < s.len() && is_space(s[from]) {
        skip_spaces(s, from + 1)
    } else {
        from
    }
}

/// The first position at or after `from` that holds white space, or the
/// length of `s` where none follows.
pub open spec fn skip_word(s: Seq<char>, from: int) -> int
    decreases s.len() - from,
{
    if 0 <= from < s.len() && !is_space(s[from]) {
        skip_word(s, from + 1)
    } else {
        from
    }
}

/// Where the first word at or after `from` starts and ends, if there is one.
pub open spec fn word_from(s: Seq<char>, from: int) -> Option<(int, int)> {
    let start = skip_spaces(s, from);
    if 0 <= start < s.len() {
        Some((start, skip_word(s, start)))
    } else {
        None
    }
}

/// The second word of `s`: what follows the first run of white space that
/// follows the first word, up to the next white space.
pub open spec fn second_word(s: Seq<char>) -> Option<Seq<char>> {
    match word_from(s, 0) {
        None => None,
        Some((_, end)) => match word_from(s, end) {
            None => None,
            Some((start, stop)) => Some(s.subrange(start, stop)),
        },
    }
}

/// `skip_spaces` stays within the text and stops on a character that is no
/// white space.
pub proof fn lemma_skip_spaces(s: Seq<char>, from: int)
    requires
        0 <= from <= s.len(),
    ensures
        from <= skip_spaces(s, from) <= s.len(),
        skip_spaces(s, from) < s.len() ==> !is_space(s[skip_spaces(s, from)]),
        forall|i: int| from <= i < skip_spaces(s, from) ==> is_space(#[trigger] s[i]),
    decreases s.len() - from,
{
    if from < s.len() && is_space(s[from]) {
        lemma_skip_spaces(s, from + 1);
    }
}

/// `skip_word` stays within the text and stops on white space.
pub proof fn lemma_skip_word(s: Seq<char>, from: int)
    requires
        0 <= from <= s.len(),
    ensures
        from <= skip_word(s, from) <= s.len(),
        skip_word(s, from) < s.len() ==> is_space(s[skip_word(s, from)]),
        forall|i: int| from <= i < skip_word(s, from) ==> !is_space(#[trigger] s[i]),
    decreases s.len() - from,
{
    if from < s.len() && !is_space(s[from]) {
        lemma_skip_word(s, from + 1);
    }
}

/// A second word, where there is one, is not empty and holds no white space.
pub proof fn lemma_second_word_is_a_word(s: Seq<char>)
    ensures
        second_word(s) matches Some(w) ==> w.len() > 0 && forall|i: int|
            0 <= i < w.len() ==> !is_space(#[trigger] w[i]),
{
    lemma_skip_spaces(s, 0);
    let first = skip_spaces(s, 0);
    if first < s.len() {
        lemma_skip_word(s, first);
        let end = skip_word(s, first);
        lemma_skip_spaces(s, end);
        let start = skip_spaces(s, end);
        if start < s.len() {
            lemma_skip_word(s, start);
        }
    }
}

/// A word: at least one character, and no white space.
pub open spec fn is_word(w: Seq<char>) -> bool {
    &&& w.len() > 0
    &&& forall|i: int| 0 <= i < w.len() ==> !is_space(#[trigger] w[i])
}

/// `skip_spaces` runs to the end of a stretch of white space.
pub proof fn lemma_skip_spaces_over(s: Seq<char>, from: int, to: int)
    requires
        0 <= from <= to <= s.len(),
        forall|i: int| from <= i < to ==> is_space(#[trigger] s[i]),
        to == s.len() || !is_space(s[to]),
    ensures
        skip_spaces(s, from) == to,
    decreases to - from,
{
    if from < to {
        lemma_skip_spaces_over(s, from + 1, to);
    }
}

/// `skip_word` runs to the end of a stretch without white space.
pub proof fn lemma_skip_word_over(s: Seq<char>, from: int, to: int)
    requires
        0 <= from <= to <= s.len(),
        forall|i: int| from <= i < to ==> !is_space(#[trigger] s[i]),
        to == s.len() || is_space(s[to]),
    ensures
        skip_word(s, from) == to,
    decreases to - from,
{
    if from < to {
        lemma_skip_word_over(s, from + 1, to);
    }
}

/// Of two words with one space between them, the second word is the
/// second.
pub proof fn lemma_second_word_of_pair(first: Seq<char>, second: Seq<char>)
    requires
        is_word(first),
        is_word(second),
    ensures
        second_word(first + seq![' '] + second) == Some(second),
{
    let line = first + seq![' '] + second;
    let gap = first.len() as int;
    assert(is_space(' '));
    assert(line[gap] == ' ');
    assert forall|i: int| 0 <= i < gap implies !is_space(#[trigger] line[i]) by {
        assert(line[i] == first[i]);
    }
    assert forall|i: int| gap + 1 <= i < line.len() implies !is_space(#[trigger] line[i]) by {
        assert(line[i] == second[i - gap - 1]);
    }
    lemma_skip_spaces_over(line, 0, 0);
    lemma_skip_word_over(line, 0, gap);
    lemma_skip_spaces_over(line, gap, gap + 1);
    lemma_skip_word_over(line, gap + 1, line.len() as int);
    assert(line.subrange(gap + 1, line.len() as int) =~= second);
}

/// Whether `c` is white space.
pub fn is_whitespace(c: char) -> (r: bool)
    ensures
        r == is_space(c),
{
    let n: u32 = c as u32;
    (0x09 <= n && n <= 0x0D) || n == 0x20 || n == 0x85 || n == 0xA0 || n == 0x1680 || (0x2000 <= n
        && n <= 0x200A) || n == 0x2028 || n == 0x2029 || n == 0x202F || n == 0x205F || n
        == 0x3000
}

/// The characters of `line`, one by one.
fn chars_of(line: &str) -> (r: Vec<char>)
    ensures
        r@ == line@,
{
    let mut chars: Vec<char> = Vec::new();
    for c in it: line.chars()
        invariant
            chars@ == it.seq().take(it.index() as int),
            it.seq() == line@,
    {
        chars.push(c);
    }
    chars
}

/// Walks over white space from `from`.
fn after_spaces(chars: &Vec<char>, from: usize) -> (r: usize)
    requires
        from <= chars@.len(),
    ensures
        r == skip_spaces(chars@, from as int),
        from <= r <= chars@.len(),
{
    let mut i: usize = from;
    while i < chars.len() && is_whitespace(chars[i])
        invariant
            from <= i <= chars@.len(),
            skip_spaces(chars@, from as int) == skip_spaces(chars@, i as int),
        decreases chars@.len() - i,
    {
        i = i + 1;
    }
    i
}

/// Walks over a word from `from`.
fn after_word(chars: &Vec<char>, from: usize) -> (r: usize)
    requires
        from <= chars@.len(),
    ensures
        r == skip_word(chars@, from as int),
        from <= r <= chars@.len(),
{
    let mut i: usize = from;
    while i < chars.len() && !is_whitespace(chars[i])
        invariant
            from <= i <= chars@.len(),
            skip_word(chars@, from as int) == skip_word(chars@, i as int),
        decreases chars@.len() - i,
    {
        i = i + 1;
    }
    i
}

/// The second of the words of `line` that white space separates, `None`
/// where `line` holds fewer than two.
pub fn second_token(line: &str) -> (r: Option<String>)
    ensures
        match r {
            Some(word) => second_word(line@) == Some(word@),
            None => second_word(line@) is None,
        },
{
    let chars = chars_of(line);
    let first = after_spaces(&chars, 0);
    if first >= chars.len() {
        return None;
    }
    let end = after_word(&chars, first);
    let start = after_spaces(&chars, end);
    if start >= chars.len() {
        return None;
    }
    let stop = after_word(&chars, start);
    Some(line.substring_char(start, stop).to_owned())
}

} // verus!
