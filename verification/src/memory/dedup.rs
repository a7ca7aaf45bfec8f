//! Detection of content that was seen before.

use crate::text_map::TextMap;
use crate::utils::content_hash;
use crate::vector_store::score::Score;
use vstd::prelude::*;

verus! {

/// How duplicates are told.
#[derive(Debug, Clone, Copy, PartialEq, Eq, Structural)]
pub enum DeduplicationStrategy {
    /// By equal content hash.
    Exact,
    /// By similarity of embeddings, which the caller computes.
    Similarity,
    /// Not at all.
    Off,
}

/// The bit pattern of 0.95, the similarity from which on two contents count
/// as the same unless another threshold is given.
pub const DEFAULT_SIMILARITY_BITS: u32 = 0x3F73_3333;

/// Whether `content` counts as seen, given the strategy and what is
/// registered: never without a strategy, else when its hash is registered.
pub open spec fn seen(
    strategy: DeduplicationStrategy,
    registry: Map<Seq<char>, Seq<char>>,
    content: Seq<char>,
) -> bool {
    strategy != DeduplicationStrategy::Off && registry.contains_key(content_hash(content))
}

/// What is registered after `content` is registered under `id`.
pub open spec fn registered(
    strategy: DeduplicationStrategy,
    registry: Map<Seq<char>, Seq<char>>,
    content: Seq<char>,
    id: Seq<char>,
) -> Map<Seq<char>, Seq<char>> {
    if strategy == DeduplicationStrategy::Off {
        registry
    } else {
        registry.insert(content_hash(content), id)
    }
}

/// With a strategy other than `Off`, content counts as seen as soon as it
/// is registered, whatever was registered before; and nothing counts as
/// seen while nothing is registered.
pub proof fn lemma_registered_is_seen(
    strategy: DeduplicationStrategy,
    registry: Map<Seq<char>, Seq<char>>,
    content: Seq<char>,
    id: Seq<char>,
)
    requires
        strategy != DeduplicationStrategy::Off,
    ensures
        seen(strategy, registered(strategy, registry, content, id), content),
        registered(strategy, registry, content, id)[content_hash(content)] == id,
        !seen(strategy, Map::empty(), content),
{
}

/// Registering content changes nothing for content with another hash.
pub proof fn lemma_register_leaves_others(
    strategy: DeduplicationStrategy,
    registry: Map<Seq<char>, Seq<char>>,
    content: Seq<char>,
    id: Seq<char>,
    other: Seq<char>,
)
    requires
        content_hash(other) != content_hash(content),
    ensures
        seen(strategy, registered(strategy, registry, content, id), other) == seen(
            strategy,
            registry,
            other,
        ),
{
}

/// The deduplicator: a strategy and the contents registered so far, each
/// under its hash with the identifier it was registered with.
#[derive(Debug)]
pub struct Deduplicator {
    strategy: DeduplicationStrategy,
    cache: TextMap<String>,
    similarity_threshold: Score,
}

impl Deduplicator {
    /// What every deduplicator upholds.
    pub closed spec fn wf(&self) -> bool {
        self.cache.wf()
    }

    /// The strategy it was made with.
    pub closed spec fn strategy(&self) -> DeduplicationStrategy {
        self.strategy
    }

    /// What is registered: identifiers by content hash.
    pub closed spec fn registry(&self) -> Map<Seq<char>, Seq<char>> {
        self.cache@
    }

    /// The similarity threshold it was made with.
    pub closed spec fn threshold(&self) -> Score {
        self.similarity_threshold
    }

    /// The registry is finite.
    pub proof fn lemma_registry_finite(&self)
        requires
            self.wf(),
        ensures
            self.registry().dom().finite(),
    {
        self.cache.lemma_view();
    }

    /// A deduplicator with nothing registered and the threshold 0.95.
    pub fn new(strategy: DeduplicationStrategy) -> (d: Self)
        ensures
            d.wf(),
            d.strategy() == strategy,
            d.registry() == Map::<Seq<char>, Seq<char>>::empty(),
            d.threshold().bits == DEFAULT_SIMILARITY_BITS,
    {
        Deduplicator {
            strategy,
            cache: TextMap::new(),
            similarity_threshold: Score::from_bits(DEFAULT_SIMILARITY_BITS),
        }
    }

    /// A deduplicator with nothing registered and the given threshold.
    pub fn with_threshold(strategy: DeduplicationStrategy, threshold: Score) -> (d: Self)
        ensures
            d.wf(),
            d.strategy() == strategy,
            d.registry() == Map::<Seq<char>, Seq<char>>::empty(),
            d.threshold() == threshold,
    {
        Deduplicator { strategy, cache: TextMap::new(), similarity_threshold: threshold }
    }

    /// The hash under which `content` is registered.
    pub fn compute_hash(content: &str) -> (hash: String)
        ensures
            hash@ == content_hash(content@),
            hash@.len() == 64,
    {
        crate::utils::compute_hash(content)
    }

    /// The similarity threshold.
    pub fn similarity_threshold(&self) -> (threshold: Score)
        ensures
            threshold == self.threshold(),
    {
        self.similarity_threshold
    }

    /// Whether two contents with this similarity count as the same: the
    /// similarity is a number and not below the threshold.
    pub fn is_similar(&self, similarity: Score) -> (answer: bool)
        ensures
            answer == (!similarity.incomparable() && !self.threshold().incomparable()
                && similarity.key() >= self.threshold().key()),
    {
        !similarity.is_incomparable() && !self.similarity_threshold.is_incomparable()
            && !similarity.less_than(&self.similarity_threshold)
    }

    /// Whether `content` was registered before.
    pub fn is_duplicate(&self, content: &str) -> (answer: bool)
        requires
            self.wf(),
        ensures
            answer == seen(self.strategy(), self.registry(), content@),
    {
        if self.strategy == DeduplicationStrategy::Off {
            return false;
        }
        let hash = Self::compute_hash(content);
        self.cache.contains_key(hash.as_str())
    }

    /// Register `content` under `id`. Without a strategy nothing is kept.
    pub fn register(&mut self, content: &str, id: String)
        requires
            old(self).wf(),
        ensures
            final(self).wf(),
            final(self).strategy() == old(self).strategy(),
            final(self).threshold() == old(self).threshold(),
            final(self).registry() == registered(
                old(self).strategy(),
                old(self).registry(),
                content@,
                id@,
            ),
    {
        if self.strategy == DeduplicationStrategy::Off {
            return ;
        }
        let hash = Self::compute_hash(content);
        self.cache.insert(hash, id);
    }

    /// The identifier under which `content` was registered, if it was.
    pub fn get_duplicate(&self, content: &str) -> (found: Option<String>)
        requires
            self.wf(),
        ensures
            match found {
                Some(id) => seen(self.strategy(), self.registry(), content@) && id@
                    == self.registry()[content_hash(content@)],
                None => !seen(self.strategy(), self.registry(), content@),
            },
    {
        if self.strategy == DeduplicationStrategy::Off {
            return None;
        }
        let hash = Self::compute_hash(content);
        match self.cache.get(hash.as_str()) {
            Some(id) => Some(id.clone()),
            None => None,
        }
    }

    /// Forget everything registered.
    pub fn clear(&mut self)
        requires
            old(self).wf(),
        ensures
            final(self).wf(),
            final(self).strategy() == old(self).strategy(),
            final(self).threshold() == old(self).threshold(),
            final(self).registry() == Map::<Seq<char>, Seq<char>>::empty(),
    {
        self.cache.clear();
    }

    /// Number of contents registered.
    pub fn cache_size(&self) -> (n: usize)
        requires
            self.wf(),
        ensures
            n == self.registry().dom().len(),
    {
        self.cache.len()
    }
}

} // verus!
