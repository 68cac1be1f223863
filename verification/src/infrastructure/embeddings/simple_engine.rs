//! The deterministic reference embedder: tokens are hashed into buckets
//! and counted.
//!
//! The engine's integer side lives here: validation, tokenising, hashing
//! and counting. Scaling the counts to unit length is numeric work on
//! floating-point numbers and happens where the counts are consumed.

use crate::domain::errors::{error_of, DomainError, ErrorKind, ErrorView};
use crate::text::{
    blank, eq_ignore_ascii_case, eq_ignoring_ascii_case, is_blank, texts, tokenize, tokens,
};
use vstd::prelude::*;

verus! {

/// Fewest dimensions of the embedder.
pub const MIN_DIMENSIONS: usize = 8;

/// Most dimensions of the embedder.
pub const MAX_DIMENSIONS: usize = 4096;

/// A lightweight embedding engine that hashes tokens into a vector of
/// fixed size.
#[derive(Debug)]
pub struct SimpleEmbedEngine {
    model_name: String,
    dimensions: usize,
}

/// Number of the given hashes that fall into bucket `b` of `dims`.
pub open spec fn bucket_count(hashes: Seq<usize>, dims: usize, b: int) -> nat
    decreases hashes.len(),
{
    if hashes.len() == 0 {
        0
    } else {
        bucket_count(hashes.drop_last(), dims, b) + if hashes.last() as int % dims as int == b {
            1nat
        } else {
            0nat
        }
    }
}

/// The counts per bucket of the given hashes.
pub open spec fn bucket_counts_of(hashes: Seq<usize>, dims: usize) -> Seq<usize> {
    Seq::new(dims as nat, |b: int| bucket_count(hashes, dims, b) as usize)
}

/// No bucket holds more than there are hashes.
pub proof fn lemma_bucket_count_bound(hashes: Seq<usize>, dims: usize, b: int)
    ensures
        bucket_count(hashes, dims, b) <= hashes.len(),
    decreases hashes.len(),
{
    if hashes.len() > 0 {
        lemma_bucket_count_bound(hashes.drop_last(), dims, b);
    }
}

/// The sum of the counts.
pub open spec fn total(counts: Seq<usize>) -> nat
    decreases counts.len(),
{
    if counts.len() == 0 {
        0
    } else {
        total(counts.drop_last()) + counts.last() as nat
    }
}

/// Number of the given hashes that fall into a bucket below `b`.
pub open spec fn count_below(hashes: Seq<usize>, dims: usize, b: int) -> nat
    decreases b,
{
    if b <= 0 {
        0
    } else {
        count_below(hashes, dims, b - 1) + bucket_count(hashes, dims, b - 1)
    }
}

proof fn lemma_count_below_push(hashes: Seq<usize>, h: usize, dims: usize, b: int)
    requires
        dims > 0,
        0 <= b <= dims,
    ensures
        count_below(hashes.push(h), dims, b) == count_below(hashes, dims, b) + if (h as int)
            % (dims as int) < b {
            1nat
        } else {
            0nat
        },
    decreases b,
{
    if b > 0 {
        lemma_count_below_push(hashes, h, dims, b - 1);
        assert(hashes.push(h).drop_last() =~= hashes);
    }
}

proof fn lemma_count_below_all(hashes: Seq<usize>, dims: usize, b: int)
    requires
        dims > 0,
        0 <= b <= dims,
    ensures
        count_below(hashes, dims, b) <= hashes.len(),
        b == dims ==> count_below(hashes, dims, b) == hashes.len(),
    decreases hashes.len(), b,
{
    if hashes.len() == 0 {
        if b > 0 {
            lemma_count_below_all(hashes, dims, b - 1);
        }
    } else {
        let init = hashes.drop_last();
        lemma_count_below_all(init, dims, b);
        lemma_count_below_push(init, hashes.last(), dims, b);
        assert(init.push(hashes.last()) =~= hashes);
    }
}

/// Every hash falls into exactly one bucket: the counts add up to the
/// number of hashes.
pub proof fn lemma_counts_add_up(hashes: Seq<usize>, dims: usize)
    requires
        dims > 0,
        hashes.len() <= usize::MAX,
    ensures
        total(bucket_counts_of(hashes, dims)) == hashes.len(),
{
    let counts = bucket_counts_of(hashes, dims);
    lemma_total_below(hashes, dims, dims as int);
    assert(counts.take(dims as int) =~= counts);
    lemma_count_below_all(hashes, dims, dims as int);
}

proof fn lemma_total_below(hashes: Seq<usize>, dims: usize, b: int)
    requires
        dims > 0,
        0 <= b <= dims,
        hashes.len() <= usize::MAX,
    ensures
        total(bucket_counts_of(hashes, dims).take(b)) == count_below(hashes, dims, b),
    decreases b,
{
    let counts = bucket_counts_of(hashes, dims);
    if b > 0 {
        lemma_total_below(hashes, dims, b - 1);
        lemma_bucket_count_bound(hashes, dims, b - 1);
        assert(counts.take(b).drop_last() =~= counts.take(b - 1));
        assert(counts.take(b).last() == counts[b - 1]);
    }
}

/// `counts` are the counts per bucket of the tokens of `text`: one count
/// per dimension, the counts of one hash per token, adding up to the
/// number of tokens.
pub open spec fn counts_tokens_of(text: Seq<char>, dims: usize, counts: Seq<usize>) -> bool {
    &&& counts.len() == dims
    &&& total(counts) == tokens(text).len()
    &&& exists|hashes: Seq<usize>|
        hashes.len() == tokens(text).len() && counts == #[trigger] bucket_counts_of(hashes, dims)
}

/// Why a request is turned away, if it is: it names another model than the
/// engine's, ASCII case aside, or its text is blank.
pub open spec fn request_rejection(engine_model: Seq<char>, model: Seq<char>, text: Seq<char>)
    -> Option<ErrorView> {
    if !eq_ignoring_ascii_case(model, engine_model) {
        Some(
            error_of(
                ErrorKind::Embedding,
                "engine initialised for `"@ + engine_model + "` but `"@ + model + "` requested"@,
            ),
        )
    } else if blank(text) {
        Some(error_of(ErrorKind::Validation, "text payload cannot be empty"@))
    } else {
        None
    }
}

/// Checks an embedding request against the engine's model. The request
/// passes if and only if no rejection applies.
pub fn check_request(engine_model: &str, model: &str, text: &str) -> (r: Result<(), DomainError>)
    ensures
        match request_rejection(engine_model@, model@, text@) {
            Some(e) => r is Err && r->Err_0@ == e,
            None => r is Ok,
        },
{
    if !eq_ignore_ascii_case(model, engine_model) {
        let mut msg = "engine initialised for `".to_owned();
        msg.append(engine_model);
        msg.append("` but `");
        msg.append(model);
        msg.append("` requested");
        return Err(DomainError::embedding(msg.as_str()));
    }
    if is_blank(text) {
        return Err(DomainError::validation("text payload cannot be empty"));
    }
    Ok(())
}

/// `ahash::AHasher::default` makes a hasher with fixed keys, `str::hash`
/// feeds it the token and `Hasher::finish` gives the hash, which is cut to
/// the width of `usize`. Which algorithm the hasher runs depends on the
/// machine it is built for, so nothing is claimed of the value.
#[verifier::external_body]
fn hash_token(token: &str) -> usize {
    let mut hasher = ahash::AHasher::default();
    std::hash::Hash::hash(token, &mut hasher);
    std::hash::Hasher::finish(&hasher) as usize
}

/// Counts, per bucket, the hashes that fall into it.
pub fn bucket_counts(hashes: &Vec<usize>, dimensions: usize) -> (counts: Vec<usize>)
    requires
        dimensions > 0,
    ensures
        counts@ == bucket_counts_of(hashes@, dimensions),
        total(counts@) == hashes@.len(),
{
    proof {
        assert(hashes@.len() == hashes.len());
        lemma_counts_add_up(hashes@, dimensions);
    }
    let mut counts: Vec<usize> = Vec::new();
    let mut b: usize = 0;
    while b < dimensions
        invariant
            b <= dimensions,
            counts@.len() == b,
            forall|k: int| 0 <= k < b ==> counts@[k] == 0,
        decreases dimensions - b,
    {
        counts.push(0);
        b += 1;
    }
    let mut i: usize = 0;
    while i < hashes.len()
        invariant
            dimensions > 0,
            i <= hashes.len(),
            counts@.len() == dimensions,
            forall|k: int|
                0 <= k < dimensions ==> counts@[k] as nat == bucket_count(
                    hashes@.subrange(0, i as int),
                    dimensions,
                    k,
                ),
        decreases hashes.len() - i,
    {
        let idx = hashes[i] % dimensions;
        proof {
            let next = hashes@.subrange(0, i + 1);
            assert(next.drop_last() == hashes@.subrange(0, i as int));
            assert(next.last() == hashes@[i as int]);
            lemma_bucket_count_bound(hashes@.subrange(0, i as int), dimensions, idx as int);
        }
        let bumped = counts[idx] + 1;
        counts.set(idx, bumped);
        i += 1;
    }
    proof {
        assert(hashes@.subrange(0, hashes.len() as int) == hashes@);
        assert forall|k: int| 0 <= k < dimensions implies counts@[k] == bucket_counts_of(
            hashes@,
            dimensions,
        )[k] by {
            lemma_bucket_count_bound(hashes@, dimensions, k);
        }
        assert(counts@ =~= bucket_counts_of(hashes@, dimensions));
    }
    counts
}

impl SimpleEmbedEngine {
    /// The model that the engine answers for.
    pub closed spec fn model_name(&self) -> Seq<char> {
        self.model_name@
    }

    /// The length of the engine's vectors.
    pub closed spec fn dimensions(&self) -> usize {
        self.dimensions
    }

    /// The engine's invariant: its dimensions lie within the limits.
    #[verifier::type_invariant]
    spec fn within_limits(&self) -> bool {
        MIN_DIMENSIONS <= self.dimensions <= MAX_DIMENSIONS
    }

    /// An engine for the given model. Zero dimensions are refused; any
    /// other number is held within `8..=4096`.
    pub fn try_new(model_name: &str, dimensions: usize) -> (r: Result<Self, DomainError>)
        ensures
            dimensions == 0 ==> r is Err && r->Err_0@ == error_of(
                ErrorKind::Validation,
                "embedding dimensions must be greater than zero"@,
            ),
            dimensions > 0 ==> r is Ok && r->Ok_0.model_name() == model_name@
                && r->Ok_0.dimensions() == if dimensions < MIN_DIMENSIONS {
                MIN_DIMENSIONS
            } else if dimensions > MAX_DIMENSIONS {
                MAX_DIMENSIONS
            } else {
                dimensions
            },
    {
        if dimensions == 0 {
            return Err(DomainError::validation("embedding dimensions must be greater than zero"));
        }
        let dims = if dimensions < MIN_DIMENSIONS {
            MIN_DIMENSIONS
        } else if dimensions > MAX_DIMENSIONS {
            MAX_DIMENSIONS
        } else {
            dimensions
        };
        Ok(SimpleEmbedEngine { model_name: model_name.to_owned(), dimensions: dims })
    }

    /// An engine for the given model and a positive number of dimensions,
    /// held within `8..=4096`.
    pub fn new(model_name: &str, dimensions: usize) -> (out: Self)
        requires
            dimensions > 0,
        ensures
            out.model_name() == model_name@,
            out.dimensions() == if dimensions < MIN_DIMENSIONS {
                MIN_DIMENSIONS
            } else if dimensions > MAX_DIMENSIONS {
                MAX_DIMENSIONS
            } else {
                dimensions
            },
    {
        let dims = if dimensions < MIN_DIMENSIONS {
            MIN_DIMENSIONS
        } else if dimensions > MAX_DIMENSIONS {
            MAX_DIMENSIONS
        } else {
            dimensions
        };
        SimpleEmbedEngine { model_name: model_name.to_owned(), dimensions: dims }
    }

    /// The model that the engine answers for.
    pub fn model(&self) -> (out: &str)
        ensures
            out@ == self.model_name(),
    {
        self.model_name.as_str()
    }

    /// The length of the engine's vectors.
    pub fn dims(&self) -> (out: usize)
        ensures
            out == self.dimensions(),
            MIN_DIMENSIONS <= out <= MAX_DIMENSIONS,
    {
        proof {
            use_type_invariant(self);
        }
        self.dimensions
    }

    /// Splits a text into tokens at ASCII whitespace and punctuation.
    pub fn tokenize(&self, text: &str) -> (out: Vec<String>)
        ensures
            texts(out@) == tokens(text@),
    {
        tokenize(text)
    }

    /// Counts the tokens of a text per bucket: each token is hashed and
    /// falls into the bucket `hash % dimensions`. The result has one count
    /// per dimension, and the counts are those of one hash per token.
    pub fn embed_counts(&self, text: &str) -> (counts: Vec<usize>)
        ensures
            counts_tokens_of(text@, self.dimensions(), counts@),
    {
        proof {
            use_type_invariant(self);
        }
        let words = tokenize(text);
        assert(texts(words@).len() == words@.len());
        let mut hashes: Vec<usize> = Vec::new();
        let mut i: usize = 0;
        while i < words.len()
            invariant
                i <= words.len(),
                hashes@.len() == i,
            decreases words.len() - i,
        {
            hashes.push(hash_token(words[i].as_str()));
            i += 1;
        }
        let counts = bucket_counts(&hashes, self.dimensions);
        proof {
            lemma_counts_add_up(hashes@, self.dimensions);
        }
        assert(hashes@.len() == tokens(text@).len() && counts@ == bucket_counts_of(
            hashes@,
            self.dimensions(),
        ));
        counts
    }

    /// Answers an embedding request as far as integers go: turns the
    /// request away if it names another model or has a blank text, and
    /// else counts the text's tokens per bucket.
    pub fn token_counts(&self, model: &str, text: &str) -> (r: Result<Vec<usize>, DomainError>)
        ensures
            match request_rejection(self.model_name(), model@, text@) {
                Some(e) => r is Err && r->Err_0@ == e,
                None => r is Ok && counts_tokens_of(text@, self.dimensions(), r->Ok_0@),
            },
    {
        match check_request(self.model_name.as_str(), model, text) {
            Err(e) => Err(e),
            Ok(_) => Ok(self.embed_counts(text)),
        }
    }
}

impl Default for SimpleEmbedEngine {
    fn default() -> (out: Self)
        ensures
            out.model_name() == "ingat/simple-hash"@,
            out.dimensions() == 256,
    {
        SimpleEmbedEngine::new("ingat/simple-hash", 256)
    }
}

} // verus!
