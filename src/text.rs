use crate::pattern::{regex_compiles, regex_is_match, Pattern};
use vstd::prelude::*;

verus! {

/// The characters with the Unicode `White_Space` property, which is what
/// `char::is_whitespace` tests.
pub open spec fn is_white_space(c: char) -> bool {
    let u = c as u32;
    (0x09 <= u && u <= 0x0D) || u == 0x20 || u == 0x85 || u == 0xA0 || u == 0x1680
        || (0x2000 <= u && u <= 0x200A) || u == 0x2028 || u == 0x2029 || u == 0x202F
        || u == 0x205F || u == 0x3000
}

/// Position `i` of `s` is the first character of a word: it is not white
/// space, and it is the first character or follows white space.
pub open spec fn starts_word(s: Seq<char>, i: int) -> bool {
    &&& 0 <= i < s.len()
    &&& !is_white_space(s[i])
    &&& (i == 0 || is_white_space(s[i - 1]))
}

/// The number of maximal runs of non-white-space characters in `s`.
pub open spec fn words_in(s: Seq<char>) -> nat
    decreases s.len(),
{
    if s.len() == 0 {
        0
    } else {
        words_in(s.drop_last()) + if starts_word(s, s.len() - 1) {
            1nat
        } else {
            0nat
        }
    }
}

/// Whether `c` is Unicode white space.
pub fn is_whitespace_char(c: char) -> (r: bool)
    ensures
        r == is_white_space(c),
{
    let u = c as u32;
    (0x09 <= u && u <= 0x0D) || u == 0x20 || u == 0x85 || u == 0xA0 || u == 0x1680
        || (0x2000 <= u && u <= 0x200A) || u == 0x2028 || u == 0x2029 || u == 0x202F
        || u == 0x205F || u == 0x3000
}

/// The number of words of `text`, where words are separated by any run of
/// Unicode white space.
pub fn word_count(text: &str) -> (r: usize)
    ensures
        r == words_in(text@),
{
    let len = text.unicode_len();
    let mut count: usize = 0;
    let mut after_space = true;
    for c in it: text.chars()
        invariant
            len == text@.len(),
            it.seq() == text@,
            count <= it.index(),
            count == words_in(text@.take(it.index() as int)),
            after_space == (it.index() == 0 || is_white_space(text@[it.index() - 1])),
    {
        let ghost i = it.index();
        assert(text@.take(i + 1).drop_last() == text@.take(i));
        let ws = is_whitespace_char(c);
        if !ws && after_space {
            count = count + 1;
        }
        after_space = ws;
    }
    assert(text@.take(text@.len() as int) == text@);
    count
}

/// Whole words, in any case, that mark a text as urgent.
pub const URGENCY_PATTERN: &'static str = "(?i)\\b(urgent|asap|critical|emergency|immediately|now)\\b";

/// Whole words, in any case, that mark a text as small talk.
pub const NOISE_PATTERN: &'static str = "(?i)\\b(hello|thanks|lol|haha|hi|ok|hey|sure)\\b";

/// The length bonus in thousandths: two per character, at most 200.
pub open spec fn length_bonus_millis(chars: nat) -> int {
    if 2 * chars < 200 {
        (2 * chars) as int
    } else {
        200
    }
}

/// The weight in thousandths before clamping: 500, plus the length bonus,
/// plus 150 for a question mark, plus 200 for an urgent word, minus 300 for
/// a small-talk word.
pub open spec fn raw_weight_millis(chars: nat, question: bool, urgent: bool, noise: bool) -> int {
    500 + length_bonus_millis(chars) + (if question {
        150int
    } else {
        0int
    }) + (if urgent {
        200int
    } else {
        0int
    }) - (if noise {
        300int
    } else {
        0int
    })
}

/// The weight in thousandths: the raw weight clamped into `[0, 1000]`.
pub open spec fn weight_millis_of(chars: nat, question: bool, urgent: bool, noise: bool) -> int {
    let raw = raw_weight_millis(chars, question, urgent, noise);
    if raw < 0 {
        0
    } else if raw > 1000 {
        1000
    } else {
        raw
    }
}

/// The weight in thousandths of `text`.
pub open spec fn text_weight_millis(text: Seq<char>) -> int {
    weight_millis_of(
        text.len(),
        text.contains('?'),
        regex_is_match(URGENCY_PATTERN@, text),
        regex_is_match(NOISE_PATTERN@, text),
    )
}

/// The weight in thousandths of a text of `char_count` characters, given
/// whether it holds a question mark, an urgent word and a small-talk word.
pub fn weight_from_signals(char_count: usize, question: bool, urgent: bool, noise: bool) -> (r: u32)
    ensures
        r == weight_millis_of(char_count as nat, question, urgent, noise),
{
    let length_bonus: u32 = if char_count >= 100 {
        200
    } else {
        2 * (char_count as u32)
    };
    let mut raw: u32 = 500 + length_bonus;
    if question {
        raw = raw + 150;
    }
    if urgent {
        raw = raw + 200;
    }
    if noise {
        raw = raw - 300;
    }
    if raw > 1000 {
        1000
    } else {
        raw
    }
}

/// Whether `text` holds a question mark.
pub fn has_question_mark(text: &str) -> (r: bool)
    ensures
        r == text@.contains('?'),
{
    let mut found = false;
    for c in it: text.chars()
        invariant
            it.seq() == text@,
            found == (exists|j: int| 0 <= j < it.index() && text@[j] == '?'),
    {
        if c == '?' {
            found = true;
        }
    }
    found
}

/// Why a text scorer could not be built.
#[derive(Debug, Clone, Copy, PartialEq, Eq, Structural)]
pub enum ScorerError {
    /// The `regex` crate refused one of the fixed word patterns.
    InvalidPattern,
}

/// Scores texts with the two fixed word patterns, compiled once.
pub struct TextScorer {
    urgency: Pattern,
    noise: Pattern,
}

impl TextScorer {
    #[verifier::type_invariant]
    spec fn patterns_fixed(self) -> bool {
        &&& self.urgency.source() == URGENCY_PATTERN@
        &&& self.noise.source() == NOISE_PATTERN@
    }

    /// Compiles the urgency and small-talk patterns.
    pub fn new() -> (r: Result<TextScorer, ScorerError>)
        ensures
            r is Ok <==> (regex_compiles(URGENCY_PATTERN@) && regex_compiles(NOISE_PATTERN@)),
    {
        let urgency = Pattern::new(URGENCY_PATTERN);
        let noise = Pattern::new(NOISE_PATTERN);
        match (urgency, noise) {
            (Some(urgency), Some(noise)) => Ok(TextScorer { urgency, noise }),
            _ => Err(ScorerError::InvalidPattern),
        }
    }

    /// The importance weight of `text` in thousandths, in `[0, 1000]`.
    pub fn weight_millis(&self, text: &str) -> (r: u32)
        ensures
            r == text_weight_millis(text@),
    {
        proof {
            use_type_invariant(self);
        }
        let chars = text.unicode_len();
        let question = has_question_mark(text);
        let urgent = self.urgency.is_match(text);
        let noise = self.noise.is_match(text);
        weight_from_signals(chars, question, urgent, noise)
    }
}

/// The weight always lies in `[0, 1000]` thousandths.
pub proof fn lemma_weight_in_range(chars: nat, question: bool, urgent: bool, noise: bool)
    ensures
        0 <= weight_millis_of(chars, question, urgent, noise) <= 1000,
{
}

/// Past 100 characters the length bonus is saturated: a longer text weighs
/// as much as one of 100 characters with the same words.
pub proof fn lemma_weight_saturates(chars: nat, question: bool, urgent: bool, noise: bool)
    requires
        chars >= 100,
    ensures
        weight_millis_of(chars, question, urgent, noise) == weight_millis_of(100, question, urgent, noise),
        length_bonus_millis(chars) == 200,
{
}

} // verus!
