//! Text as sequences of characters: decimal rendering, substring search and
//! removal, and case folding.

use vstd::prelude::*;

verus! {

/// `String::push` of std appends the given character to the end of the string.
pub assume_specification[ String::push ](s: &mut String, c: char)
    ensures
        final(s)@ == old(s)@.push(c),
;

/// The lowercase form of a text, as `str::to_lowercase` of std computes it
/// (Unicode's Lowercase property, independent of any locale).
pub uninterp spec fn lowercase(s: Seq<char>) -> Seq<char>;

/// `str::to_lowercase` of std returns the lowercase equivalent of the slice
/// as a new string; it depends on the characters of the slice alone.
pub assume_specification[ str::to_lowercase ](s: &str) -> (r: String)
    ensures
        r@ == lowercase(s@),
;

/// The texts of a list of strings.
pub open spec fn texts_of(strings: Seq<String>) -> Seq<Seq<char>> {
    strings.map_values(|s: String| s@)
}

/// The characters of a string slice, in order.
pub fn chars_of(s: &str) -> (v: Vec<char>)
    ensures
        v@ == s@,
{
    let mut v: Vec<char> = Vec::new();
    for c in it: s.chars()
        invariant
            it.seq() == s@,
            v@ == it.seq().take(it.index()),
    {
        v.push(c);
    }
    v
}

/// Whether the characters are those of the string slice.
pub fn same_text(chars: &Vec<char>, s: &str) -> (r: bool)
    ensures
        r == (chars@ == s@),
{
    let other = chars_of(s);
    if chars.len() != other.len() {
        return false;
    }
    let mut i: usize = 0;
    while i < chars.len()
        invariant
            i <= chars.len(),
            chars.len() == other.len(),
            other@ == s@,
            forall|j: int| 0 <= j < i ==> chars@[j] == other@[j],
        decreases chars.len() - i,
    {
        if chars[i] != other[i] {
            return false;
        }
        i = i + 1;
    }
    proof {
        assert(chars@ =~= s@);
    }
    true
}

/// The string made of the given characters, in order.
pub fn string_of(v: &Vec<char>) -> (s: String)
    ensures
        s@ == v@,
{
    let mut s = String::new();
    let mut i: usize = 0;
    while i < v.len()
        invariant
            i <= v.len(),
            s@ == v@.take(i as int),
        decreases v.len() - i,
    {
        s.push(v[i]);
        i = i + 1;
    }
    s
}

/// The character that writes a single decimal digit.
pub open spec fn digit(d: nat) -> char {
    if d == 0 {
        '0'
    } else if d == 1 {
        '1'
    } else if d == 2 {
        '2'
    } else if d == 3 {
        '3'
    } else if d == 4 {
        '4'
    } else if d == 5 {
        '5'
    } else if d == 6 {
        '6'
    } else if d == 7 {
        '7'
    } else if d == 8 {
        '8'
    } else {
        '9'
    }
}

/// A number written in base ten, without sign and without leading zeros.
pub open spec fn decimal(n: nat) -> Seq<char>
    decreases n,
{
    if n < 10 {
        seq![digit(n)]
    } else {
        decimal(n / 10).push(digit(n % 10))
    }
}

/// A number below one hundred written with exactly two digits.
pub open spec fn two_digits(n: nat) -> Seq<char> {
    seq![digit(n / 10), digit(n % 10)]
}

/// The character that writes the digit `d`.
pub(crate) fn digit_char(d: u64) -> (c: char)
    requires
        d < 10,
    ensures
        c == digit(d as nat),
{
    if d == 0 {
        '0'
    } else if d == 1 {
        '1'
    } else if d == 2 {
        '2'
    } else if d == 3 {
        '3'
    } else if d == 4 {
        '4'
    } else if d == 5 {
        '5'
    } else if d == 6 {
        '6'
    } else if d == 7 {
        '7'
    } else if d == 8 {
        '8'
    } else {
        '9'
    }
}

/// Appends the decimal form of `n` to `out`.
pub fn push_decimal(out: &mut String, n: u64)
    ensures
        final(out)@ == old(out)@ + decimal(n as nat),
    decreases n,
{
    if n >= 10 {
        push_decimal(out, n / 10);
    }
    out.push(digit_char(n % 10));
}

/// Appends `n` to `out` as two decimal digits.
pub(crate) fn push_two_digits(out: &mut String, n: u64)
    requires
        n < 100,
    ensures
        final(out)@ == old(out)@ + two_digits(n as nat),
{
    out.push(digit_char(n / 10));
    out.push(digit_char(n % 10));
}

/// The decimal form of a number is never empty.
pub proof fn lemma_decimal_nonempty(n: nat)
    ensures
        decimal(n).len() >= 1,
    decreases n,
{
    if n >= 10 {
        lemma_decimal_nonempty(n / 10);
    }
}

/// `p` stands in `s` at position `i`.
pub open spec fn occurs_at(s: Seq<char>, p: Seq<char>, i: int) -> bool {
    0 <= i && i + p.len() <= s.len() && s.subrange(i, i + p.len()) == p
}

/// `p` stands somewhere in `s`.
pub open spec fn contains(s: Seq<char>, p: Seq<char>) -> bool {
    exists|i: int| occurs_at(s, p, i)
}

/// The first position at or after `from` at which `p` stands in `s`.
pub open spec fn find_from(s: Seq<char>, p: Seq<char>, from: int) -> Option<int>
    decreases s.len() - from + 1,
{
    if from < 0 || from + p.len() > s.len() {
        None
    } else if occurs_at(s, p, from) {
        Some(from)
    } else {
        find_from(s, p, from + 1)
    }
}

/// The first position at which `p` stands in `s`.
pub open spec fn find(s: Seq<char>, p: Seq<char>) -> Option<int> {
    find_from(s, p, 0)
}

/// `find_from` returns the least position that is not below `from`, and
/// fails only where there is none.
pub proof fn lemma_find_from(s: Seq<char>, p: Seq<char>, from: int)
    requires
        0 <= from,
    ensures
        match find_from(s, p, from) {
            Some(i) => from <= i && occurs_at(s, p, i) && forall|j: int|
                from <= j < i ==> !occurs_at(s, p, j),
            None => forall|j: int| from <= j ==> !occurs_at(s, p, j),
        },
    decreases s.len() - from + 1,
{
    if from + p.len() > s.len() {
    } else if occurs_at(s, p, from) {
    } else {
        lemma_find_from(s, p, from + 1);
    }
}

/// `find` succeeds exactly where the pattern stands somewhere in the text.
pub proof fn lemma_find_contains(s: Seq<char>, p: Seq<char>)
    ensures
        find(s, p) is Some <==> contains(s, p),
        find(s, p) is Some ==> occurs_at(s, p, find(s, p).unwrap()),
{
    lemma_find_from(s, p, 0);
}

/// Whether `p` stands in `s` at position `i`.
pub fn matches_at(s: &Vec<char>, p: &Vec<char>, i: usize) -> (r: bool)
    ensures
        r == occurs_at(s@, p@, i as int),
{
    if p.len() > s.len() || i > s.len() - p.len() {
        return false;
    }
    let mut k: usize = 0;
    while k < p.len()
        invariant
            k <= p.len(),
            i + p.len() <= s.len(),
            forall|j: int| 0 <= j < k ==> s@[i + j] == p@[j],
        decreases p.len() - k,
    {
        if s[i + k] != p[k] {
            proof {
                assert(s@.subrange(i as int, i + p.len())[k as int] == s@[i + k]);
            }
            return false;
        }
        k = k + 1;
    }
    proof {
        assert(s@.subrange(i as int, i + p.len()) =~= p@);
    }
    true
}

/// The first position at which `p` stands in `s`, if it stands anywhere.
pub fn find_in(s: &Vec<char>, p: &Vec<char>) -> (r: Option<usize>)
    ensures
        match r {
            Some(i) => find(s@, p@) == Some(i as int),
            None => find(s@, p@) is None,
        },
{
    if p.len() > s.len() {
        return None;
    }
    let last: usize = s.len() - p.len();
    let mut i: usize = 0;
    loop
        invariant
            last == s.len() - p.len(),
            i <= last,
            find(s@, p@) == find_from(s@, p@, i as int),
        decreases last - i,
    {
        if matches_at(s, p, i) {
            return Some(i);
        }
        if i == last {
            proof {
                assert(find_from(s@, p@, i + 1) is None);
            }
            return None;
        }
        i = i + 1;
    }
}

/// Whether `p` stands somewhere in `s`.
pub fn contains_in(s: &Vec<char>, p: &Vec<char>) -> (r: bool)
    ensures
        r == contains(s@, p@),
{
    proof {
        lemma_find_contains(s@, p@);
    }
    find_in(s, p).is_some()
}

/// `s` without the `n` characters that start at position `i`.
pub open spec fn remove_range(s: Seq<char>, i: int, n: int) -> Seq<char> {
    s.subrange(0, i) + s.subrange(i + n, s.len() as int)
}

/// `s` without the first occurrence of `p`; `s` itself where `p` does not
/// stand in it.
pub open spec fn remove_first(s: Seq<char>, p: Seq<char>) -> Seq<char> {
    match find(s, p) {
        Some(i) => remove_range(s, i, p.len() as int),
        None => s,
    }
}

/// A copy of `s` without the `n` characters that start at position `i`.
pub(crate) fn without_range(s: &Vec<char>, i: usize, n: usize) -> (r: Vec<char>)
    requires
        i + n <= s.len(),
    ensures
        r@ == remove_range(s@, i as int, n as int),
{
    let mut r: Vec<char> = Vec::new();
    let mut k: usize = 0;
    while k < i
        invariant
            k <= i,
            i + n <= s.len(),
            r@ == s@.subrange(0, k as int),
        decreases i - k,
    {
        r.push(s[k]);
        proof {
            assert(r@ =~= s@.subrange(0, k + 1));
        }
        k = k + 1;
    }
    let mut m: usize = i + n;
    while m < s.len()
        invariant
            i + n <= m <= s.len(),
            r@ == s@.subrange(0, i as int) + s@.subrange(i + n, m as int),
        decreases s.len() - m,
    {
        r.push(s[m]);
        proof {
            assert(r@ =~= s@.subrange(0, i as int) + s@.subrange(i + n, m + 1));
        }
        m = m + 1;
    }
    r
}

/// Removing an occurrence of a pattern shortens the text by the length of
/// the pattern.
pub proof fn lemma_remove_first_len(s: Seq<char>, p: Seq<char>)
    requires
        find(s, p) is Some,
    ensures
        remove_first(s, p).len() == s.len() - p.len(),
{
    lemma_find_from(s, p, 0);
}

/// The first of the patterns, from position `from` of the list on, that is
/// not empty and stands in the text.
pub open spec fn first_present(text: Seq<char>, patterns: Seq<Seq<char>>, from: int) -> Option<
    int,
>
    decreases patterns.len() - from + 1,
{
    if from < 0 || from >= patterns.len() {
        None
    } else if patterns[from].len() > 0 && find(text, patterns[from]) is Some {
        Some(from)
    } else {
        first_present(text, patterns, from + 1)
    }
}

/// `first_present` returns the least position of a pattern that is not
/// empty and stands in the text, and fails only where there is none.
pub proof fn lemma_first_present(text: Seq<char>, patterns: Seq<Seq<char>>, from: int)
    requires
        0 <= from,
    ensures
        match first_present(text, patterns, from) {
            Some(k) => from <= k < patterns.len() && patterns[k].len() > 0 && find(
                text,
                patterns[k],
            ) is Some && forall|j: int|
                from <= j < k ==> !(patterns[j].len() > 0 && find(text, patterns[j]) is Some),
            None => forall|j: int|
                from <= j < patterns.len() ==> !(patterns[j].len() > 0 && find(
                    text,
                    patterns[j],
                ) is Some),
        },
    decreases patterns.len() - from + 1,
{
    if from < patterns.len() && !(patterns[from].len() > 0 && find(text, patterns[from]) is Some) {
        lemma_first_present(text, patterns, from + 1);
    }
}

/// The text after its patterns were taken out of it, one occurrence at a
/// time: as long as a pattern stands in the text, the first occurrence of
/// the first such pattern of the list is removed. Empty patterns are passed
/// over. The comparison of lengths is what shows that the stripping ends;
/// by `lemma_strip_all_step` it always holds.
pub open spec fn strip_all(text: Seq<char>, patterns: Seq<Seq<char>>) -> Seq<char>
    decreases text.len(),
{
    match first_present(text, patterns, 0) {
        Some(k) => {
            let rest = remove_first(text, patterns[k]);
            if rest.len() < text.len() {
                strip_all(rest, patterns)
            } else {
                text
            }
        },
        None => text,
    }
}

/// One step of `strip_all`: the removal always shortens the text, so the
/// stripping goes on with what is left.
pub proof fn lemma_strip_all_step(text: Seq<char>, patterns: Seq<Seq<char>>)
    ensures
        strip_all(text, patterns) == match first_present(text, patterns, 0) {
            Some(k) => strip_all(remove_first(text, patterns[k]), patterns),
            None => text,
        },
{
    lemma_first_present(text, patterns, 0);
    match first_present(text, patterns, 0) {
        Some(k) => {
            lemma_remove_first_len(text, patterns[k]);
        },
        None => {},
    }
}

/// None of the patterns, but for the empty ones, stands in what `strip_all`
/// leaves.
pub proof fn lemma_strip_all_clean(text: Seq<char>, patterns: Seq<Seq<char>>)
    ensures
        forall|k: int|
            0 <= k < patterns.len() && patterns[k].len() > 0 ==> !contains(
                strip_all(text, patterns),
                #[trigger] patterns[k],
            ),
    decreases text.len(),
{
    lemma_first_present(text, patterns, 0);
    lemma_strip_all_step(text, patterns);
    match first_present(text, patterns, 0) {
        Some(k) => {
            lemma_remove_first_len(text, patterns[k]);
            lemma_strip_all_clean(remove_first(text, patterns[k]), patterns);
        },
        None => {
            assert forall|k: int| 0 <= k < patterns.len() && patterns[k].len() > 0 implies !contains(
                text,
                #[trigger] patterns[k],
            ) by {
                lemma_find_contains(text, patterns[k]);
            }
        },
    }
}

/// The texts of a list of patterns.
pub open spec fn pattern_texts(patterns: Seq<Vec<char>>) -> Seq<Seq<char>> {
    patterns.map_values(|p: Vec<char>| p@)
}

/// The first pattern that is not empty and stands in the text, with the
/// position of its first occurrence.
pub fn find_first_present(text: &Vec<char>, patterns: &Vec<Vec<char>>) -> (r: Option<
    (usize, usize),
>)
    ensures
        match r {
            Some((k, i)) => first_present(text@, pattern_texts(patterns@), 0) == Some(k as int)
                && k < patterns.len() && find(text@, patterns@[k as int]@) == Some(i as int),
            None => first_present(text@, pattern_texts(patterns@), 0) is None,
        },
{
    let ghost texts = pattern_texts(patterns@);
    let mut k: usize = 0;
    while k < patterns.len()
        invariant
            k <= patterns.len(),
            texts == pattern_texts(patterns@),
            first_present(text@, texts, 0) == first_present(text@, texts, k as int),
        decreases patterns.len() - k,
    {
        assert(texts[k as int] == patterns@[k as int]@);
        if patterns[k].len() > 0 {
            match find_in(text, &patterns[k]) {
                Some(i) => {
                    return Some((k, i));
                },
                None => {},
            }
        }
        k = k + 1;
    }
    None
}

/// Takes the patterns out of the text, one occurrence at a time.
pub fn strip(text: Vec<char>, patterns: &Vec<Vec<char>>) -> (r: Vec<char>)
    ensures
        r@ == strip_all(text@, pattern_texts(patterns@)),
{
    let ghost texts = pattern_texts(patterns@);
    let ghost whole = text@;
    let mut rest = text;
    loop
        invariant
            texts == pattern_texts(patterns@),
            whole == text@,
            strip_all(rest@, texts) == strip_all(whole, texts),
        decreases rest.len(),
    {
        proof {
            lemma_strip_all_step(rest@, texts);
        }
        match find_first_present(&rest, patterns) {
            Some((k, i)) => {
                proof {
                    assert(texts[k as int] == patterns@[k as int]@);
                    lemma_first_present(rest@, texts, 0);
                    lemma_find_from(rest@, texts[k as int], 0);
                }
                rest = without_range(&rest, i, patterns[k].len());
            },
            None => {
                return rest;
            },
        }
    }
}

} // verus!
