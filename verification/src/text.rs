//! Text primitives shared by the classifiers: case folding, trimming, substring
//! search and word counting over `Seq<char>` views. Only case folding and the
//! white-space property of a character are taken on trust from the standard
//! library; searching, trimming and counting are proved here.
use vstd::prelude::*;
use vstd::string::StrSliceExecFns;

verus! {

/// The lower-case form of a text as `str::to_lowercase` computes it (full Unicode
/// case mapping, independent of locale). Only the wrapper below gives it a value.
pub uninterp spec fn lowercase(s: Seq<char>) -> Seq<char>;

/// Whether a character has the Unicode `White_Space` property, as
/// `char::is_whitespace` reports it.
pub uninterp spec fn white_space(c: char) -> bool;

/// The views of a list of texts.
pub open spec fn texts(items: Seq<String>) -> Seq<Seq<char>> {
    items.map_values(|item: String| item@)
}

/// Length of a text in bytes of its UTF-8 form, as `str::len` reports it.
pub open spec fn utf8_len(s: Seq<char>) -> usize {
    vstd::utf8::encode_utf8(s).len() as usize
}

/// `needle` occurs in `hay` starting at position `i`.
pub open spec fn occurs_at(hay: Seq<char>, needle: Seq<char>, i: int) -> bool {
    0 <= i && i + needle.len() <= hay.len() && hay.subrange(i, i + needle.len()) == needle
}

/// `needle` occurs somewhere in `hay`.
pub open spec fn has_substring(hay: Seq<char>, needle: Seq<char>) -> bool {
    exists|i: int| occurs_at(hay, needle, i)
}

/// The text without its leading and trailing white space.
pub open spec fn trimmed(s: Seq<char>) -> Seq<char>
    decreases s.len(),
{
    if s.len() > 0 && white_space(s[0]) {
        trimmed(s.drop_first())
    } else if s.len() > 0 && white_space(s.last()) {
        trimmed(s.drop_last())
    } else {
        s
    }
}

/// Position `i` holds the first character of a word: a non-blank character at the
/// start of the text or right after a blank one.
pub open spec fn starts_word(s: Seq<char>, i: int) -> bool {
    0 <= i < s.len() && !white_space(s[i]) && (i == 0 || white_space(s[i - 1]))
}

/// Number of words that start among the first `n` characters.
pub open spec fn words_before(s: Seq<char>, n: int) -> nat
    decreases n,
{
    if n <= 0 {
        0
    } else {
        words_before(s, n - 1) + if starts_word(s, n - 1) {
            1nat
        } else {
            0nat
        }
    }
}

/// Number of maximal runs of non-blank characters.
pub open spec fn word_count(s: Seq<char>) -> nat {
    words_before(s, s.len() as int)
}

/// Number of the first `n` needles that occur in `hay`.
pub open spec fn hits_before(hay: Seq<char>, needles: Seq<&'static str>, n: int) -> nat
    decreases n,
{
    if n <= 0 {
        0
    } else {
        hits_before(hay, needles, n - 1) + if n <= needles.len() && has_substring(
            hay,
            needles[n - 1]@,
        ) {
            1nat
        } else {
            0nat
        }
    }
}

/// Number of needles that occur in `hay`; a needle listed twice counts twice.
pub open spec fn hit_count(hay: Seq<char>, needles: Seq<&'static str>) -> nat {
    hits_before(hay, needles, needles.len() as int)
}

/// Whether a character is one of the arithmetic signs `+ - * / =`.
pub open spec fn is_operator(c: char) -> bool {
    c == '+' || c == '-' || c == '*' || c == '/' || c == '='
}

/// Number of arithmetic signs among the first `n` characters.
pub open spec fn operators_before(s: Seq<char>, n: int) -> nat
    decreases n,
{
    if n <= 0 {
        0
    } else {
        operators_before(s, n - 1) + if n <= s.len() && is_operator(s[n - 1]) {
            1nat
        } else {
            0nat
        }
    }
}

/// Number of arithmetic signs in a text.
pub open spec fn operator_count(s: Seq<char>) -> nat {
    operators_before(s, s.len() as int)
}

/// Trusted: `str::to_lowercase`. The result is the named lower-case form of the
/// argument; nothing else is claimed of it.
#[verifier::external_body]
pub(crate) fn to_lowercase(s: &str) -> (lowered: String)
    ensures
        lowered@ == lowercase(s@),
{
    s.to_lowercase()
}

/// Trusted: `char::is_whitespace`. The result is the named Unicode property.
#[verifier::external_body]
pub(crate) fn is_whitespace(c: char) -> (blank: bool)
    ensures
        blank == white_space(c),
{
    c.is_whitespace()
}

/// The characters of a text.
pub fn chars_of(s: &str) -> (chars: Vec<char>)
    ensures
        chars@ == s@,
{
    let mut chars: Vec<char> = Vec::new();
    for c in it: s.chars()
        invariant
            it.seq() == s@,
            chars@ =~= s@.take(it.index() as int),
    {
        chars.push(c);
    }
    assert(s@.take(s@.len() as int) =~= s@);
    chars
}

/// Whether `needle` occurs in `hay` at the given position.
fn occurs_here(hay: &Vec<char>, needle: &Vec<char>, at: usize) -> (found: bool)
    requires
        at + needle.len() <= hay.len(),
    ensures
        found == occurs_at(hay@, needle@, at as int),
{
    let ghost window = hay@.subrange(at as int, at + needle.len());
    let mut k: usize = 0;
    while k < needle.len()
        invariant
            k <= needle.len(),
            at + needle.len() <= hay.len(),
            window == hay@.subrange(at as int, at + needle.len()),
            forall|j: int| 0 <= j < k ==> window[j] == needle@[j],
        decreases needle.len() - k,
    {
        if hay[at + k] != needle[k] {
            assert(window[k as int] != needle@[k as int]);
            return false;
        }
        k = k + 1;
    }
    assert(window =~= needle@);
    true
}

/// Whether `needle` occurs in `hay` as a contiguous run of characters.
pub fn contains_chars(hay: &Vec<char>, needle: &Vec<char>) -> (found: bool)
    ensures
        found == has_substring(hay@, needle@),
{
    if needle.len() > hay.len() {
        assert(!has_substring(hay@, needle@)) by {
            assert forall|i: int| !occurs_at(hay@, needle@, i) by {}
        }
        return false;
    }
    let last: usize = hay.len() - needle.len();
    let mut at: usize = 0;
    while at < last
        invariant
            at <= last,
            last == hay.len() - needle.len(),
            forall|i: int| 0 <= i < at ==> !occurs_at(hay@, needle@, i),
        decreases last - at,
    {
        if occurs_here(hay, needle, at) {
            return true;
        }
        at = at + 1;
    }
    let found = occurs_here(hay, needle, last);
    if !found {
        assert(!has_substring(hay@, needle@)) by {
            assert forall|i: int| !occurs_at(hay@, needle@, i) by {}
        }
    }
    found
}

/// Whether `needle` occurs in `hay` as a contiguous run of characters. The empty
/// text occurs in every text.
pub fn contains(hay: &str, needle: &str) -> (found: bool)
    ensures
        found == has_substring(hay@, needle@),
{
    let hay_chars = chars_of(hay);
    let needle_chars = chars_of(needle);
    contains_chars(&hay_chars, &needle_chars)
}

/// The part of a text from `from` up to `to` is the trimmed text, where it is
/// blank before `from` and from `to` on, and either empty or bounded by
/// non-blank characters.
proof fn lemma_trimmed_is_the_inner_part(s: Seq<char>, from: int, to: int)
    requires
        0 <= from <= to <= s.len(),
        forall|i: int| 0 <= i < from ==> white_space(s[i]),
        forall|i: int| to <= i < s.len() ==> white_space(s[i]),
        from == to || (!white_space(s[from]) && !white_space(s[to - 1])),
    ensures
        trimmed(s) == s.subrange(from, to),
    decreases s.len(),
{
    if s.len() > 0 && white_space(s[0]) {
        let rest = s.drop_first();
        if from == 0 {
            assert(to == 0);
            lemma_trimmed_is_the_inner_part(rest, 0, 0);
            assert(rest.subrange(0, 0) =~= s.subrange(0, 0));
        } else {
            lemma_trimmed_is_the_inner_part(rest, from - 1, to - 1);
            assert(rest.subrange(from - 1, to - 1) =~= s.subrange(from, to));
        }
    } else if s.len() > 0 && white_space(s.last()) {
        let rest = s.drop_last();
        assert(from == 0);
        assert(to < s.len());
        lemma_trimmed_is_the_inner_part(rest, from, to);
        assert(rest.subrange(from, to) =~= s.subrange(from, to));
    } else {
        if s.len() > 0 {
            assert(from == 0);
            assert(to == s.len());
        }
        assert(s.subrange(from, to) =~= s);
    }
}

/// The text without its leading and trailing white space.
pub fn trim(s: &str) -> (inner: &str)
    ensures
        inner@ == trimmed(s@),
{
    let chars = chars_of(s);
    let mut from: usize = 0;
    let mut scanning = true;
    while scanning
        invariant
            from <= chars.len(),
            forall|i: int| 0 <= i < from ==> white_space(chars@[i]),
            !scanning ==> from == chars.len() || !white_space(chars@[from as int]),
        decreases chars.len() - from + if scanning { 1int } else { 0int },
    {
        if from < chars.len() && is_whitespace(chars[from]) {
            from = from + 1;
        } else {
            scanning = false;
        }
    }
    let mut to: usize = chars.len();
    scanning = true;
    while scanning
        invariant
            from <= to <= chars.len(),
            forall|i: int| to <= i < chars.len() ==> white_space(chars@[i]),
            from == chars.len() || !white_space(chars@[from as int]),
            !scanning ==> to == from || !white_space(chars@[to - 1]),
        decreases to - from + if scanning { 1int } else { 0int },
    {
        if to > from && is_whitespace(chars[to - 1]) {
            to = to - 1;
        } else {
            scanning = false;
        }
    }
    proof {
        lemma_trimmed_is_the_inner_part(s@, from as int, to as int);
    }
    s.substring_char(from, to)
}

/// Whether two texts hold the same characters.
pub fn same_text(a: &str, b: &str) -> (same: bool)
    ensures
        same == (a@ == b@),
{
    let left = a.to_owned();
    let right = b.to_owned();
    left == right
}

/// Counts the words of a text: maximal runs of non-blank characters.
pub fn count_words(s: &str) -> (n: usize)
    ensures
        n == word_count(s@),
{
    let total = s.unicode_len();
    let mut n: usize = 0;
    let mut after_blank = true;
    for c in it: s.chars()
        invariant
            it.seq() == s@,
            total == s@.len(),
            n <= it.index(),
            n == words_before(s@, it.index() as int),
            after_blank == (it.index() == 0 || white_space(s@[it.index() - 1])),
    {
        let blank = is_whitespace(c);
        if !blank && after_blank {
            n = n + 1;
        }
        after_blank = blank;
    }
    n
}

/// Counts how many of the needles occur in the text.
pub fn count_hits(hay: &str, needles: &[&'static str]) -> (n: usize)
    ensures
        n == hit_count(hay@, needles@),
        n <= needles.len(),
{
    let hay_chars = chars_of(hay);
    let mut n: usize = 0;
    let mut i: usize = 0;
    while i < needles.len()
        invariant
            i <= needles.len(),
            n <= i,
            hay_chars@ == hay@,
            n == hits_before(hay@, needles@, i as int),
        decreases needles.len() - i,
    {
        let needle_chars = chars_of(needles[i]);
        if contains_chars(&hay_chars, &needle_chars) {
            n = n + 1;
        }
        i = i + 1;
    }
    n
}

/// Counts the arithmetic signs `+ - * / =` in a text.
pub fn count_operators(s: &str) -> (n: usize)
    ensures
        n == operator_count(s@),
{
    let total = s.unicode_len();
    let mut n: usize = 0;
    for c in it: s.chars()
        invariant
            it.seq() == s@,
            total == s@.len(),
            n <= it.index(),
            n == operators_before(s@, it.index() as int),
    {
        if c == '+' || c == '-' || c == '*' || c == '/' || c == '=' {
            n = n + 1;
        }
    }
    n
}

} // verus!
