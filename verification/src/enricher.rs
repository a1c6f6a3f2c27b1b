//! The enrichment step: what becomes of a dispatched post once the embedding
//! service has answered, or has failed to.
//!
//! The service answers with a list of vectors, of which the first is the
//! post's embedding. A post whose call failed is dropped: it is not retried
//! and nothing of it reaches the sink.

use vstd::prelude::*;
use crate::aggregator::DispatchedPost;
use crate::types::{Embedding, EmbeddingModel};

verus! {

/// How long a call of the embedding service may take, in seconds.
pub const EMBED_TIMEOUT_SECS: u64 = 30;

/// Why a post got no embedding.
#[derive(Debug, PartialEq, Eq)]
pub enum EmbedFailure {
    /// The call failed: it timed out, was refused, or its answer could not
    /// be read. The message says which.
    Service(String),
    /// The service answered with an empty list of vectors.
    NoVector,
}

/// What the enricher does with a post.
#[derive(Debug, PartialEq, Eq)]
pub enum Enriched {
    /// Hand this record to the sink.
    Forward(Embedding),
    /// Drop the post with this key, for this reason.
    Dropped { uri: String, failure: EmbedFailure },
}

/// The embedding among the vectors of an answer: the first, if there is one.
pub open spec fn first_of(vectors: Seq<Vec<u32>>) -> Option<Seq<u32>> {
    if vectors.len() > 0 {
        Some(vectors[0]@)
    } else {
        None
    }
}

/// Takes the embedding out of the service's answer: the first vector. The
/// others are discarded. An answer without a vector is a failure.
pub fn first_vector(vectors: Vec<Vec<u32>>) -> (taken: Result<Vec<u32>, EmbedFailure>)
    ensures
        taken is Ok <==> vectors@.len() > 0,
        taken is Ok ==> Some(taken->Ok_0@) == first_of(vectors@),
        taken is Err ==> taken->Err_0 is NoVector,
{
    let mut vectors = vectors;
    if vectors.len() > 0 {
        Ok(vectors.swap_remove(0))
    } else {
        Err(EmbedFailure::NoVector)
    }
}

/// Joins a dispatched post with the outcome of its embedding call. On
/// success the record carries the post's key and the vector exactly as the
/// service returned it; on failure the post is dropped.
pub fn enrich(post: DispatchedPost, outcome: Result<Vec<u32>, EmbedFailure>) -> (step: Enriched)
    ensures
        outcome is Ok <==> step is Forward,
        outcome is Ok ==> step->Forward_0@ == (EmbeddingModel {
            uri: post.uri@,
            vector: outcome->Ok_0@,
        }),
        outcome is Err ==> step->uri@ == post.uri@ && step->failure == outcome->Err_0,
{
    match outcome {
        Ok(vector) => Enriched::Forward(Embedding { uri: post.uri, vector }),
        Err(failure) => Enriched::Dropped { uri: post.uri, failure },
    }
}

} // verus!
