use vstd::prelude::*;

verus! {

#[verifier::external_type_specification]
#[verifier::external_body]
pub struct ExCoreBPE(tiktoken_rs::CoreBPE);

#[verifier::external_type_specification]
#[verifier::external_body]
pub struct ExAnyhowError(anyhow::Error);

/// What the `cl100k_base` encoder reports for `text` when asked for its
/// ordinary tokens: `Some` of their number, or `None` where it gives up
/// with an error.
pub uninterp spec fn cl100k_count(text: Seq<char>) -> Option<nat>;

/// The token count that this library reports: the number of ordinary
/// tokens, with a failure of the encoder reported as zero.
pub open spec fn token_count(text: Seq<char>) -> nat {
    match cl100k_count(text) {
        Some(n) => n,
        None => 0,
    }
}

/// Why a token counter could not be built.
#[derive(Debug, Clone, Copy, PartialEq, Eq, Structural)]
pub enum TokenizerError {
    /// The bundled `cl100k_base` table could not be loaded.
    TableUnavailable,
}

/// A token counter over the `cl100k_base` vocabulary. Its encoder is only
/// ever built by `tiktoken_rs::cl100k_base`.
pub struct TokenCounter {
    bpe: tiktoken_rs::CoreBPE,
}

/// Relies on `tiktoken_rs::cl100k_base`, which builds the encoder from the
/// vocabulary and pattern bundled in that crate and nothing else, and so
/// succeeds on every call (that crate's own singleton unwraps it).
#[verifier::external_body]
fn load_cl100k() -> (r: Result<tiktoken_rs::CoreBPE, anyhow::Error>)
    ensures
        r is Ok,
{
    tiktoken_rs::cl100k_base()
}

/// Relies on `tiktoken_rs::CoreBPE::count` with no special token allowed:
/// the number of tokens that ordinary encoding gives, or an error where the
/// pre-splitting pattern fails at run time (where `encode_ordinary` would
/// panic instead). The encoder is the one that `load_cl100k` built. No piece
/// of an empty text is matched, so it has no token.
#[verifier::external_body]
fn count_ordinary(counter: &TokenCounter, text: &str) -> (r: Result<usize, anyhow::Error>)
    ensures
        r is Ok <==> cl100k_count(text@) is Some,
        r is Ok ==> cl100k_count(text@) == Some(r->Ok_0 as nat),
        text@.len() == 0 ==> r is Ok && r->Ok_0 == 0,
{
    counter.bpe.count(text, &std::collections::HashSet::new())
}

/// The count reported for an outcome of the encoder: the number of tokens,
/// or zero where it failed.
pub fn count_or_zero(outcome: Option<usize>) -> (r: usize)
    ensures
        r == match outcome {
            Some(n) => n,
            None => 0usize,
        },
{
    match outcome {
        Some(n) => n,
        None => 0,
    }
}

impl TokenCounter {
    /// Loads the `cl100k_base` encoder.
    pub fn new() -> (r: Result<TokenCounter, TokenizerError>)
        ensures
            r is Ok,
    {
        match load_cl100k() {
            Ok(bpe) => Ok(TokenCounter { bpe }),
            Err(_) => Err(TokenizerError::TableUnavailable),
        }
    }

    /// The number of ordinary `cl100k_base` tokens of `text`, or zero where
    /// the encoder fails on it. Never panics.
    pub fn count_tokens(&self, text: &str) -> (r: usize)
        ensures
            r == token_count(text@),
            text@.len() == 0 ==> r == 0,
    {
        let outcome = match count_ordinary(self, text) {
            Ok(n) => Some(n),
            Err(_) => None,
        };
        count_or_zero(outcome)
    }
}

/// Counting tokens is deterministic: the same text always gives the same
/// count.
pub proof fn lemma_count_tokens_deterministic(a: Seq<char>, b: Seq<char>)
    requires
        a == b,
    ensures
        token_count(a) == token_count(b),
{
}

} // verus!
