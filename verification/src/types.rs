//! Records that travel through the pipeline, each with the mathematical
//! model that the contracts of the other modules speak of.

use vstd::prelude::*;

verus! {

/// The text payload of a newly created post.
#[derive(Debug, PartialEq, Eq)]
pub struct Record {
    pub text: String,
}

/// What a post event did to the post.
#[derive(Debug, PartialEq, Eq)]
pub enum Commit {
    Create { record: Record },
    Delete,
    Update,
}

/// A decoded event of the post stream.
#[derive(Debug, PartialEq, Eq)]
pub struct RawPost {
    pub did: String,
    pub uri: String,
    pub commit: Commit,
}

/// A tracked post: its author, its key, its text and the likes counted so far.
#[derive(Debug, PartialEq, Eq)]
pub struct Post {
    pub did: String,
    pub uri: String,
    pub text: String,
    pub count: u32,
}

/// A decoded event of the like stream. It names the liked post by `uri`.
#[derive(Debug, PartialEq, Eq)]
pub struct Like {
    pub did: String,
    pub uri: String,
}

/// A post's key with its embedding. Each component of `vector` is the bit
/// pattern of one 32-bit float, so that a vector is carried unchanged.
#[derive(Debug, PartialEq, Eq)]
pub struct Embedding {
    pub uri: String,
    pub vector: Vec<u32>,
}

/// Model of a [`Post`].
pub ghost struct PostModel {
    pub did: Seq<char>,
    pub uri: Seq<char>,
    pub text: Seq<char>,
    pub count: nat,
}

/// Model of an [`Embedding`].
pub ghost struct EmbeddingModel {
    pub uri: Seq<char>,
    pub vector: Seq<u32>,
}

impl View for Post {
    type V = PostModel;

    open spec fn view(&self) -> PostModel {
        PostModel { did: self.did@, uri: self.uri@, text: self.text@, count: self.count as nat }
    }
}

impl View for Embedding {
    type V = EmbeddingModel;

    open spec fn view(&self) -> EmbeddingModel {
        EmbeddingModel { uri: self.uri@, vector: self.vector@ }
    }
}

impl Clone for Record {
    fn clone(&self) -> (r: Self)
        ensures
            r.text@ == self.text@,
    {
        Record { text: self.text.clone() }
    }
}

impl Clone for Post {
    fn clone(&self) -> (r: Self)
        ensures
            r@ == self@,
    {
        Post {
            did: self.did.clone(),
            uri: self.uri.clone(),
            text: self.text.clone(),
            count: self.count,
        }
    }
}

impl Clone for Like {
    fn clone(&self) -> (r: Self)
        ensures
            r.did@ == self.did@,
            r.uri@ == self.uri@,
    {
        Like { did: self.did.clone(), uri: self.uri.clone() }
    }
}

impl Default for Post {
    /// The empty post: no author, no key, no text, no likes.
    fn default() -> (r: Self)
        ensures
            r@ == (PostModel { did: Seq::empty(), uri: Seq::empty(), text: Seq::empty(), count: 0 }),
    {
        Post { did: String::new(), uri: String::new(), text: String::new(), count: 0 }
    }
}

} // verus!
