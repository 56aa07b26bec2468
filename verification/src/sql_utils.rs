//! Word-boundary search used by the text widgets: a separator is a maximal
//! run of non-word characters, and the "last word part" of a buffer is the
//! text between the last separator and the end.

use vstd::prelude::*;

verus! {

/// Whether `c` belongs to the word class of the `regex` crate (`\w`).
/// The exact class takes pages to state; only its ASCII portion is pinned
/// down, through the contract of `char_is_word`.
pub uninterp spec fn is_word_char(c: char) -> bool;

/// The ASCII word characters: `[0-9A-Za-z_]`.
pub open spec fn is_ascii_word_char(c: char) -> bool {
    (97 <= c as u32 && c as u32 <= 122)  // a-z
    || (65 <= c as u32 && c as u32 <= 90)  // A-Z
    || (48 <= c as u32 && c as u32 <= 57)  // 0-9
    || c as u32 == 95  // _
}

/// Relies on `regex`: `Regex::new(r"\W")` compiles the complement of the
/// word class `\w` (`\p{Alphabetic} + \p{M} + \d + \p{Pc} + \p{Join_Control}`),
/// and `Regex::is_match` on a single character reports membership.  In ASCII
/// that class is exactly `[0-9A-Za-z_]`.
#[verifier::external_body]
fn char_is_word(c: char) -> (r: bool)
    ensures
        r == is_word_char(c),
        (c as u32) < 128 ==> r == is_ascii_word_char(c),
{
    let mut buf = [0u8; 4];
    !regex::Regex::new(r"\W").unwrap().is_match(c.encode_utf8(&mut buf))
}

/// A maximal run of non-word characters inside a buffer.
#[derive(Debug, Clone, Copy, PartialEq, Eq, Structural)]
pub struct PatternPosition {
    pub index: usize,
    pub length: usize,
}

/// `s[i .. i + len)` is a maximal run of non-word characters.
pub open spec fn separator_run_at(s: Seq<char>, i: int, len: int) -> bool {
    &&& 0 <= i
    &&& 0 < len
    &&& i + len <= s.len()
    &&& (forall|k: int| i <= k < i + len ==> !is_word_char(#[trigger] s[k]))
    &&& (i == 0 || is_word_char(s[i - 1]))
    &&& (i + len == s.len() || is_word_char(s[i + len]))
}

/// The buffer holds at least one non-word character.
pub open spec fn has_separator(s: Seq<char>) -> bool {
    exists|k: int| 0 <= k < s.len() && !is_word_char(#[trigger] s[k])
}

/// Index where the word part ending at `s.len()` begins: the least `i`
/// such that every character from `i` on is a word character.
pub open spec fn word_start(s: Seq<char>) -> int
    decreases s.len(),
{
    if s.len() == 0 {
        0
    } else if !is_word_char(s[s.len() - 1]) {
        s.len() as int
    } else {
        word_start(s.drop_last())
    }
}

/// The text between the last separator (if any) and the end of the buffer.
pub open spec fn last_word_part_of(s: Seq<char>) -> Seq<char> {
    s.subrange(word_start(s), s.len() as int)
}

/// Start of the run of non-word characters that ends at `e`: the least `j`
/// with only non-word characters in `[j, e)`.
pub open spec fn nonword_run_start(s: Seq<char>, e: int) -> int
    decreases e,
{
    if e <= 0 {
        0
    } else if is_word_char(s[e - 1]) {
        e
    } else {
        nonword_run_start(s, e - 1)
    }
}

/// Where `Ctrl+Left` lands: the start of the word part before the end of
/// `s`, or, when the buffer ends in a separator run, the start of the word
/// before that run.
pub open spec fn prev_word_boundary(s: Seq<char>) -> int {
    let ws = word_start(s);
    if ws < s.len() {
        ws
    } else {
        word_start(s.subrange(0, nonword_run_start(s, s.len() as int)))
    }
}

pub proof fn lemma_nonword_run_start_unique(s: Seq<char>, e: int, j: int)
    requires
        0 <= j <= e <= s.len(),
        forall|k: int| j <= k < e ==> !is_word_char(#[trigger] s[k]),
        j == 0 || is_word_char(s[j - 1]),
    ensures
        nonword_run_start(s, e) == j,
    decreases e,
{
    if e > 0 && !is_word_char(s[e - 1]) {
        lemma_nonword_run_start_unique(s, e - 1, j);
    }
}

pub proof fn lemma_word_start_bounds(s: Seq<char>)
    ensures
        0 <= word_start(s) <= s.len(),
        forall|k: int| word_start(s) <= k < s.len() ==> is_word_char(#[trigger] s[k]),
        word_start(s) > 0 ==> !is_word_char(s[word_start(s) - 1]),
    decreases s.len(),
{
    if s.len() > 0 && is_word_char(s[s.len() - 1]) {
        lemma_word_start_bounds(s.drop_last());
        assert(forall|k: int|
            0 <= k < s.len() - 1 ==> #[trigger] s[k] == s.drop_last()[k]);
    }
}

/// `word_start` is the only cut with word characters on the right and a
/// non-word character (or the buffer start) on the left.
pub proof fn lemma_word_start_unique(s: Seq<char>, m: int)
    requires
        0 <= m <= s.len(),
        forall|k: int| m <= k < s.len() ==> is_word_char(#[trigger] s[k]),
        m == 0 || !is_word_char(s[m - 1]),
    ensures
        word_start(s) == m,
    decreases s.len(),
{
    if s.len() == 0 {
    } else if !is_word_char(s[s.len() - 1]) {
    } else {
        assert(m < s.len());
        assert(forall|k: int|
            0 <= k < s.len() - 1 ==> #[trigger] s.drop_last()[k] == s[k]);
        lemma_word_start_unique(s.drop_last(), m);
    }
}

/// Finds the first maximal run of non-word characters, if any.
pub fn find_first_separator(input: &Vec<char>) -> (r: Option<PatternPosition>)
    ensures
        r is Some <==> has_separator(input@),
        match r {
            Some(p) => {
                &&& separator_run_at(input@, p.index as int, p.length as int)
                &&& forall|k: int| 0 <= k < p.index ==> is_word_char(#[trigger] input@[k])
            },
            None => true,
        },
{
    let n = input.len();
    let mut i: usize = 0;
    while i < n && char_is_word(input[i])
        invariant
            n == input@.len(),
            i <= n,
            forall|k: int| 0 <= k < i ==> is_word_char(#[trigger] input@[k]),
        decreases n - i,
    {
        i = i + 1;
    }
    if i == n {
        return None;
    }
    let start = i;
    let mut j: usize = i;
    while j < n && !char_is_word(input[j])
        invariant
            n == input@.len(),
            start <= j <= n,
            forall|k: int| start <= k < j ==> !is_word_char(#[trigger] input@[k]),
        decreases n - j,
    {
        j = j + 1;
    }
    Some(PatternPosition { index: start, length: j - start })
}

/// Finds the last maximal run of non-word characters, if any.
pub fn find_last_separator(input: &Vec<char>) -> (r: Option<PatternPosition>)
    ensures
        r is Some <==> has_separator(input@),
        match r {
            Some(p) => {
                &&& separator_run_at(input@, p.index as int, p.length as int)
                &&& forall|k: int|
                    p.index + p.length <= k < input@.len() ==> is_word_char(#[trigger] input@[k])
                &&& p.index + p.length == word_start(input@)
            },
            None => word_start(input@) == 0,
        },
{
    let n = input.len();
    let mut i: usize = n;
    while i > 0 && char_is_word(input[i - 1])
        invariant
            n == input@.len(),
            i <= n,
            forall|k: int| i <= k < n ==> is_word_char(#[trigger] input@[k]),
        decreases i,
    {
        i = i - 1;
    }
    if i == 0 {
        proof {
            lemma_word_start_unique(input@, 0);
        }
        return None;
    }
    let last = i - 1;
    let mut j: usize = last;
    while j > 0 && !char_is_word(input[j - 1])
        invariant
            n == input@.len(),
            j <= last < n,
            !is_word_char(input@[last as int]),
            forall|k: int| j <= k <= last ==> !is_word_char(#[trigger] input@[k]),
        decreases j,
    {
        j = j - 1;
    }
    proof {
        lemma_word_start_unique(input@, last + 1);
    }
    Some(PatternPosition { index: j, length: last + 1 - j })
}

} // verus!
