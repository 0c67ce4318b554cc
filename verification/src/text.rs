//! Text as sequences of characters: conversion, matching, trimming and
//! splitting into words.

use vstd::prelude::*;

verus! {

/// White space as Unicode defines it (the property `White_Space`).
pub open spec fn is_space(c: char) -> bool {
    let n = c as u32;
    ||| 0x09 <= n <= 0x0D
    ||| n == 0x20
    ||| n == 0x85
    ||| n == 0xA0
    ||| n == 0x1680
    ||| 0x2000 <= n <= 0x200A
    ||| n == 0x2028
    ||| n == 0x2029
    ||| n == 0x202F
    ||| n == 0x205F
    ||| n == 0x3000
}

/// `pattern` stands in `text` at offset `at`.
pub open spec fn occurs_at(text: Seq<char>, at: int, pattern: Seq<char>) -> bool {
    &&& 0 <= at
    &&& at + pattern.len() <= text.len()
    &&& text.subrange(at, at + pattern.len()) == pattern
}

/// `text` begins with `prefix`.
pub open spec fn has_prefix(text: Seq<char>, prefix: Seq<char>) -> bool {
    occurs_at(text, 0, prefix)
}

/// `text` ends with `suffix`.
pub open spec fn has_suffix(text: Seq<char>, suffix: Seq<char>) -> bool {
    occurs_at(text, text.len() - suffix.len(), suffix)
}

/// `pattern` stands somewhere in `text`.
pub open spec fn contains(text: Seq<char>, pattern: Seq<char>) -> bool {
    exists|at: int| occurs_at(text, at, pattern)
}

/// Index of the last `c` in `text`, or -1 where there is none.
pub open spec fn last_index_of(text: Seq<char>, c: char) -> int
    decreases text.len(),
{
    if text.len() == 0 {
        -1
    } else if text.last() == c {
        text.len() - 1
    } else {
        last_index_of(text.drop_last(), c)
    }
}

/// `text` after every leading repetition of `prefix` has been taken away.
/// An empty prefix takes nothing away.
pub open spec fn without_leading(text: Seq<char>, prefix: Seq<char>) -> Seq<char>
    decreases text.len(),
{
    if prefix.len() > 0 && has_prefix(text, prefix) {
        without_leading(text.skip(prefix.len() as int), prefix)
    } else {
        text
    }
}

/// The ASCII lower-case form of `c`; any other character is itself.
pub open spec fn lower(c: char) -> char {
    if 'A' <= c <= 'Z' {
        ((c as u8) + 32) as char
    } else {
        c
    }
}

/// `text` with each character in its ASCII lower-case form.
pub open spec fn lowered(text: Seq<char>) -> Seq<char> {
    Seq::new(text.len(), |i: int| lower(text[i]))
}

/// Length of the run of characters at the start of `s` that are not white
/// space.
pub open spec fn word_len(s: Seq<char>) -> nat
    decreases s.len(),
{
    if s.len() > 0 && !is_space(s[0]) {
        1 + word_len(s.drop_first())
    } else {
        0
    }
}

/// The words of `s`: its maximal runs of characters that are not white
/// space, from left to right.
pub open spec fn tokens(s: Seq<char>) -> Seq<Seq<char>>
    decreases s.len(),
    via tokens_decreases
{
    if s.len() == 0 {
        Seq::empty()
    } else if is_space(s[0]) {
        tokens(s.drop_first())
    } else {
        seq![s.take(word_len(s) as int)] + tokens(s.skip(word_len(s) as int))
    }
}

#[via_fn]
proof fn tokens_decreases(s: Seq<char>) {
    if s.len() > 0 && !is_space(s[0]) {
        lemma_word_len_bounds(s);
    }
}

/// The first word of a text is no longer than the text, and not empty
/// where the text begins with a character that is no white space.
pub proof fn lemma_word_len_bounds(s: Seq<char>)
    ensures
        word_len(s) <= s.len(),
        s.len() > 0 && !is_space(s[0]) ==> word_len(s) >= 1,
    decreases s.len(),
{
    if s.len() > 0 && !is_space(s[0]) {
        lemma_word_len_bounds(s.drop_first());
    }
}

/// A run of `n` characters without white space that ends at the end of `s`
/// or at a white space is the first word of `s`.
pub proof fn lemma_word_len_is(s: Seq<char>, n: int)
    requires
        0 <= n <= s.len(),
        forall|j: int| 0 <= j < n ==> !is_space(#[trigger] s[j]),
        n == s.len() || is_space(s[n]),
    ensures
        word_len(s) == n,
    decreases s.len(),
{
    if n > 0 {
        let rest = s.drop_first();
        assert forall|j: int| 0 <= j < n - 1 implies !is_space(#[trigger] rest[j]) by {
            assert(rest[j] == s[j + 1]);
        }
        lemma_word_len_is(rest, n - 1);
    }
}

/// A text stands in what is written around it, right after what precedes
/// it.
pub proof fn lemma_occurs_between(before: Seq<char>, pattern: Seq<char>, after: Seq<char>)
    ensures
        occurs_at(before + pattern + after, before.len() as int, pattern),
        contains(before + pattern + after, pattern),
{
    let whole = before + pattern + after;
    assert(whole.subrange(before.len() as int, (before.len() + pattern.len()) as int) =~= pattern);
}

/// The characters of `text`, in order.
pub fn chars_of(text: &str) -> (chars: Vec<char>)
    ensures
        chars@ == text@,
{
    let mut chars: Vec<char> = Vec::new();
    for c in it: text.chars()
        invariant
            it.seq() == text@,
            chars@ == it.seq().take(it.index() as int),
    {
        chars.push(c);
    }
    chars
}

/// Appends one character to a string, by `String::push`.
#[verifier::external_body]
fn push_char(text: &mut String, c: char)
    ensures
        final(text)@ == old(text)@.push(c),
{
    text.push(c);
}

/// The string made of `chars[from..to]`.
pub fn string_of(chars: &Vec<char>, from: usize, to: usize) -> (text: String)
    requires
        from <= to <= chars.len(),
    ensures
        text@ == chars@.subrange(from as int, to as int),
{
    let mut text = String::new();
    let mut i: usize = from;
    while i < to
        invariant
            from <= i <= to <= chars.len(),
            text@ == chars@.subrange(from as int, i as int),
        decreases to - i,
    {
        push_char(&mut text, chars[i]);
        i += 1;
    }
    text
}

/// `first` followed by `second`.
pub fn catenate(first: &str, second: &str) -> (text: String)
    ensures
        text@ == first@ + second@,
{
    let mut text = String::from_str(first);
    text.append(second);
    text
}

/// Tells whether `c` is white space.
pub fn is_whitespace(c: char) -> (space: bool)
    ensures
        space == is_space(c),
{
    let n: u32 = c as u32;
    (0x09 <= n && n <= 0x0D) || n == 0x20 || n == 0x85 || n == 0xA0 || n == 0x1680 || (0x2000 <= n
        && n <= 0x200A) || n == 0x2028 || n == 0x2029 || n == 0x202F || n == 0x205F || n == 0x3000
}

/// Tells whether `pattern` stands in `text` at offset `at`.
pub fn matches_at(text: &Vec<char>, at: usize, pattern: &Vec<char>) -> (found: bool)
    ensures
        found == occurs_at(text@, at as int, pattern@),
{
    if at > text.len() || pattern.len() > text.len() - at {
        return false;
    }
    let mut i: usize = 0;
    while i < pattern.len()
        invariant
            i <= pattern.len(),
            at + pattern.len() <= text.len(),
            forall|j: int| 0 <= j < i ==> text@[at + j] == pattern@[j],
        decreases pattern.len() - i,
    {
        if text[at + i] != pattern[i] {
            assert(text@.subrange(at as int, at + pattern.len())[i as int] != pattern@[i as int]);
            return false;
        }
        i += 1;
    }
    assert(text@.subrange(at as int, at + pattern.len()) =~= pattern@);
    true
}

/// Tells whether `text` begins with `prefix`.
pub fn starts_with(text: &str, prefix: &str) -> (found: bool)
    ensures
        found == has_prefix(text@, prefix@),
{
    matches_at(&chars_of(text), 0, &chars_of(prefix))
}

/// Tells whether `text` ends with `suffix`.
pub fn ends_with(text: &str, suffix: &str) -> (found: bool)
    ensures
        found == has_suffix(text@, suffix@),
{
    let chars = chars_of(text);
    let tail = chars_of(suffix);
    if tail.len() > chars.len() {
        false
    } else {
        matches_at(&chars, chars.len() - tail.len(), &tail)
    }
}

/// Tells whether `pattern` stands somewhere in `text`.
pub fn includes(text: &str, pattern: &str) -> (found: bool)
    ensures
        found == contains(text@, pattern@),
{
    let chars = chars_of(text);
    let wanted = chars_of(pattern);
    let mut at: usize = 0;
    while at < chars.len()
        invariant
            at <= chars.len(),
            chars@ == text@,
            wanted@ == pattern@,
            forall|k: int| 0 <= k < at ==> !occurs_at(text@, k, pattern@),
        decreases chars.len() - at,
    {
        if matches_at(&chars, at, &wanted) {
            return true;
        }
        at += 1;
    }
    matches_at(&chars, at, &wanted)
}

/// What `last_index_of` gives is the place of a `c` after which no other
/// `c` follows, and -1 exactly when `text` holds no `c`.
pub proof fn lemma_last_index_of(text: Seq<char>, c: char)
    ensures
        -1 <= last_index_of(text, c) < text.len(),
        last_index_of(text, c) >= 0 ==> text[last_index_of(text, c)] == c,
        forall|j: int| last_index_of(text, c) < j < text.len() ==> #[trigger] text[j] != c,
    decreases text.len(),
{
    if text.len() > 0 && text.last() != c {
        let front = text.drop_last();
        lemma_last_index_of(front, c);
        assert forall|j: int| last_index_of(text, c) < j < text.len() implies #[trigger] text[j]
            != c by {
            if j < front.len() {
                assert(text[j] == front[j]);
            }
        }
    }
}

/// Finds the last `c` in `text[from..to]`.
pub fn rfind_in(text: &Vec<char>, from: usize, to: usize, c: char) -> (found: Option<usize>)
    requires
        from <= to <= text.len(),
    ensures
        match found {
            Some(at) => from <= at < to && at - from == last_index_of(
                text@.subrange(from as int, to as int),
                c,
            ),
            None => last_index_of(text@.subrange(from as int, to as int), c) == -1,
        },
{
    let ghost part = text@.subrange(from as int, to as int);
    let mut end: usize = to;
    assert(part.take(end - from) =~= part);
    while end > from
        invariant
            from <= end <= to <= text.len(),
            part == text@.subrange(from as int, to as int),
            last_index_of(part, c) == last_index_of(part.take(end - from), c),
        decreases end,
    {
        if text[end - 1] == c {
            return Some(end - 1);
        }
        assert(part.take(end - from).drop_last() =~= part.take(end - 1 - from));
        end -= 1;
    }
    None
}

/// Finds the last `c` in `text`.
pub fn rfind(text: &Vec<char>, c: char) -> (found: Option<usize>)
    ensures
        match found {
            Some(at) => at == last_index_of(text@, c),
            None => last_index_of(text@, c) == -1,
        },
{
    assert(text@.subrange(0, text@.len() as int) =~= text@);
    rfind_in(text, 0, text.len(), c)
}

/// Tells whether two texts hold the same characters.
pub fn same_text(first: &str, second: &str) -> (same: bool)
    ensures
        same == (first@ == second@),
{
    let a = chars_of(first);
    let b = chars_of(second);
    if a.len() != b.len() {
        return false;
    }
    let found = matches_at(&a, 0, &b);
    assert(a@.subrange(0, a@.len() as int) =~= a@);
    found
}

/// Takes every leading repetition of `prefix` away from `text`.
pub fn trim_leading(text: &str, prefix: &str) -> (rest: String)
    ensures
        rest@ == without_leading(text@, prefix@),
{
    let chars = chars_of(text);
    let head = chars_of(prefix);
    let mut at: usize = 0;
    assert(chars@.skip(0) =~= chars@);
    while head.len() > 0 && matches_at(&chars, at, &head)
        invariant
            at <= chars.len(),
            chars@ == text@,
            head@ == prefix@,
            without_leading(text@, prefix@) == without_leading(chars@.skip(at as int), prefix@),
        decreases chars.len() - at,
    {
        proof {
            let here = chars@.skip(at as int);
            assert(here.subrange(0, head@.len() as int) =~= chars@.subrange(
                at as int,
                at + head@.len(),
            ));
            assert(here.skip(head@.len() as int) =~= chars@.skip(at + head@.len()));
        }
        at += head.len();
    }
    proof {
        let here = chars@.skip(at as int);
        if at + head@.len() <= chars@.len() {
            assert(here.subrange(0, head@.len() as int) =~= chars@.subrange(
                at as int,
                at + head@.len(),
            ));
        }
        assert(here =~= chars@.subrange(at as int, chars@.len() as int));
    }
    string_of(&chars, at, chars.len())
}

/// The ASCII lower-case form of `c`.
pub fn to_lower(c: char) -> (low: char)
    ensures
        low == lower(c),
{
    if 'A' <= c && c <= 'Z' {
        ((c as u8) + 32) as char
    } else {
        c
    }
}

/// `text` with its ASCII letters in lower case.
pub fn to_ascii_lowercase(text: &str) -> (low: String)
    ensures
        low@ == lowered(text@),
{
    let chars = chars_of(text);
    let mut low = String::new();
    let mut i: usize = 0;
    while i < chars.len()
        invariant
            i <= chars.len(),
            chars@ == text@,
            low@ == lowered(text@).take(i as int),
        decreases chars.len() - i,
    {
        push_char(&mut low, to_lower(chars[i]));
        assert(low@ =~= lowered(text@).take(i + 1));
        i += 1;
    }
    assert(low@ =~= lowered(text@));
    low
}

/// Splits `text` into its words.
pub fn split_whitespace(text: &str) -> (words: Vec<String>)
    ensures
        words.deep_view() == tokens(text@),
{
    let chars = chars_of(text);
    let mut words: Vec<String> = Vec::new();
    let mut i: usize = 0;
    assert(chars@.skip(0) =~= chars@);
    assert(words.deep_view() =~= Seq::<Seq<char>>::empty());
    while i < chars.len()
        invariant
            i <= chars.len(),
            chars@ == text@,
            tokens(text@) == words.deep_view() + tokens(chars@.skip(i as int)),
        decreases chars.len() - i,
    {
        let ghost here = chars@.skip(i as int);
        if is_whitespace(chars[i]) {
            assert(here.drop_first() =~= chars@.skip(i + 1));
            i += 1;
        } else {
            let start: usize = i;
            while i < chars.len() && !is_whitespace(chars[i])
                invariant
                    start <= i <= chars.len(),
                    forall|j: int| start <= j < i ==> !is_space(#[trigger] chars@[j]),
                decreases chars.len() - i,
            {
                i += 1;
            }
            let word = string_of(&chars, start, i);
            proof {
                lemma_word_len_is(here, i - start);
                assert(here.take(i - start) =~= chars@.subrange(start as int, i as int));
                assert(here.skip(i - start) =~= chars@.skip(i as int));
            }
            let ghost before = words.deep_view();
            words.push(word);
            assert(words.deep_view() =~= before.push(word@));
            assert(before.push(word@) + tokens(chars@.skip(i as int)) =~= before + (seq![word@]
                + tokens(chars@.skip(i as int))));
        }
    }
    assert(chars@.skip(i as int) =~= Seq::<char>::empty());
    assert(words.deep_view() + Seq::<Seq<char>>::empty() =~= words.deep_view());
    words
}

/// Appends copies of the texts of `more` to `texts`.
pub fn extend_with(texts: &mut Vec<String>, more: &Vec<String>)
    ensures
        final(texts).deep_view() == old(texts).deep_view() + more.deep_view(),
{
    let ghost before = texts.deep_view();
    let mut i: usize = 0;
    assert(texts.deep_view() =~= before + more.deep_view().take(0));
    while i < more.len()
        invariant
            i <= more.len(),
            texts.deep_view() == before + more.deep_view().take(i as int),
        decreases more.len() - i,
    {
        let ghost so_far = texts.deep_view();
        texts.push(more[i].clone());
        assert(texts.deep_view() =~= so_far.push(more@[i as int]@));
        assert(so_far.push(more@[i as int]@) =~= before + more.deep_view().take(i + 1));
        i += 1;
    }
    assert(more.deep_view().take(more.len() as int) =~= more.deep_view());
}

} // verus!
