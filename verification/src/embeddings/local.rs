//! The local embedder: an embedding drawn from the SHA-256 digest of the
//! text, with no model behind it.
//!
//! The embedder gives each component as a byte of the digest. The number
//! that a byte `b` stands for is `(b / 255 - 0.5) * 2`, between -1 and 1;
//! the caller makes that step.

use crate::utils::{sha256, sha256_digest};
use vstd::prelude::*;

verus! {

/// The dimension of an embedder that sets none.
pub const DEFAULT_DIMENSION: usize = 384;

/// Length of a SHA-256 digest in bytes.
pub const DIGEST_LEN: usize = 32;

/// The byte of the digest that component `i` of `dimension` is drawn from:
/// the digest is spread evenly over the components.
pub open spec fn digest_index(i: int, dimension: int) -> int {
    (i * 32) / dimension
}

/// The bytes that the embedding of `text` is drawn from.
pub open spec fn embedding_bytes(text: Seq<char>, dimension: nat) -> Seq<u8> {
    Seq::new(
        dimension,
        |i: int| sha256(vstd::utf8::encode_utf8(text))[digest_index(i, dimension as int)],
    )
}

/// The bytes of each text in a list.
pub open spec fn batch_bytes(texts: Seq<&str>, dimension: nat) -> Seq<Seq<u8>> {
    Seq::new(texts.len(), |k: int| embedding_bytes(texts[k]@, dimension))
}

/// Every component is drawn from a byte of the digest.
pub proof fn lemma_digest_index_in_range(i: int, dimension: int)
    requires
        0 <= i < dimension,
    ensures
        0 <= digest_index(i, dimension) < 32,
{
    assert(0 <= (i * 32) / dimension < 32) by (nonlinear_arith)
        requires
            0 <= i < dimension,
    ;
}

/// An embedder of a fixed dimension.
#[derive(Debug, Clone, Copy, PartialEq, Eq, Structural)]
pub struct LocalEmbedder {
    dimension: usize,
}

impl LocalEmbedder {
    /// The dimension as a spec value.
    pub closed spec fn dim(&self) -> nat {
        self.dimension as nat
    }

    /// An embedder of `dimension` components.
    pub fn new(dimension: usize) -> (embedder: Self)
        ensures
            embedder.dim() == dimension,
    {
        LocalEmbedder { dimension }
    }

    /// An embedder of 384 components.
    pub fn with_defaults() -> (embedder: Self)
        ensures
            embedder.dim() == DEFAULT_DIMENSION,
    {
        Self::new(DEFAULT_DIMENSION)
    }

    /// The number of components.
    pub fn dimension(&self) -> (dimension: usize)
        ensures
            dimension == self.dim(),
    {
        self.dimension
    }

    /// The embedding of `text` in `dimension` components, each given as the
    /// byte of the digest that it is drawn from.
    pub fn text_to_embedding(text: &str, dimension: usize) -> (bytes: Vec<u8>)
        ensures
            bytes@ == embedding_bytes(text@, dimension as nat),
    {
        let hash = sha256_digest(text.as_bytes());
        let mut bytes: Vec<u8> = Vec::new();
        let mut i: usize = 0;
        while i < dimension
            invariant
                0 <= i <= dimension,
                hash@ == sha256(vstd::utf8::encode_utf8(text@)),
                hash@.len() == 32,
                bytes@.len() == i,
                forall|k: int|
                    0 <= k < i ==> bytes@[k] == hash@[digest_index(k, dimension as int)],
            decreases dimension - i,
        {
            proof {
                lemma_digest_index_in_range(i as int, dimension as int);
            }
            let wide: u128 = (i as u128) * (DIGEST_LEN as u128) / (dimension as u128);
            let byte_idx = wide as usize;
            bytes.push(hash[byte_idx]);
            i += 1;
        }
        proof {
            assert(bytes@ =~= embedding_bytes(text@, dimension as nat));
        }
        bytes
    }

    /// The embedding of `text`, as bytes.
    pub fn embed(&self, text: &str) -> (bytes: Vec<u8>)
        ensures
            bytes@ == embedding_bytes(text@, self.dim()),
    {
        Self::text_to_embedding(text, self.dimension)
    }

    /// The embedding of each text, as bytes, in the order of the texts.
    pub fn embed_batch(&self, texts: Vec<&str>) -> (all: Vec<Vec<u8>>)
        ensures
            crate::text::views(all@) == batch_bytes(texts@, self.dim()),
    {
        let mut all: Vec<Vec<u8>> = Vec::new();
        let mut k: usize = 0;
        while k < texts.len()
            invariant
                0 <= k <= texts@.len(),
                all@.len() == k,
                forall|j: int|
                    0 <= j < k ==> (#[trigger] all@[j])@ == embedding_bytes(texts@[j]@, self.dim()),
            decreases texts@.len() - k,
        {
            all.push(Self::text_to_embedding(texts[k], self.dimension));
            k += 1;
        }
        proof {
            assert(crate::text::views(all@) =~= batch_bytes(texts@, self.dim()));
        }
        all
    }
}

} // verus!
