//! The ledger of the decoder's key/value cache.
//!
//! The buffers themselves live in the tensor engine. What is kept here is
//! how many positions each layer's pair of buffers holds, so that the
//! generation loop knows where the next token goes and when the context is
//! full.

use vstd::prelude::*;
use crate::error::PipelineError;

verus! {

/// The fill of the key/value buffers, one pair per decoder layer.
///
/// All layers hold the same number of positions, which never exceeds the
/// decoder's context length.
pub struct KvCache {
    lengths: Vec<usize>,
    filled: usize,
    max_context: usize,
}

impl KvCache {
    #[verifier::type_invariant]
    spec fn inv(self) -> bool {
        &&& self.lengths@.len() > 0
        &&& self.filled <= self.max_context
        &&& forall|l: int| 0 <= l < self.lengths@.len() ==> self.lengths@[l] == self.filled
    }

    /// The number of decoder layers.
    pub closed spec fn layers(self) -> nat {
        self.lengths@.len()
    }

    /// The number of positions that each layer holds.
    pub closed spec fn positions(self) -> nat {
        self.filled as nat
    }

    /// The number of positions that layer `l` holds.
    pub closed spec fn layer_positions(self, l: int) -> nat {
        self.lengths@[l] as nat
    }

    /// The largest number of positions that a layer can hold.
    pub closed spec fn limit(self) -> nat {
        self.max_context as nat
    }

    /// An empty cache for a decoder of `layers` layers and a context of
    /// `max_context` positions; a decoder without layers or without
    /// context is a configuration error.
    pub fn new(layers: usize, max_context: usize) -> (r: Result<KvCache, PipelineError>)
        ensures
            r is Ok <==> layers > 0 && max_context > 0,
            r matches Err(e) ==> e == PipelineError::Config,
            r matches Ok(c) ==> c.layers() == layers && c.positions() == 0 && c.limit()
                == max_context,
    {
        if layers == 0 || max_context == 0 {
            return Err(PipelineError::Config);
        }
        let mut lengths: Vec<usize> = Vec::new();
        let mut l: usize = 0;
        while l < layers
            invariant
                l <= layers,
                lengths@.len() == l,
                forall|k: int| 0 <= k < l ==> lengths@[k] == 0,
            decreases layers - l,
        {
            lengths.push(0);
            l = l + 1;
        }
        Ok(KvCache { lengths, filled: 0, max_context })
    }

    /// The number of decoder layers.
    pub fn layer_count(&self) -> (n: usize)
        ensures
            n == self.layers(),
            n > 0,
    {
        proof {
            use_type_invariant(self);
        }
        self.lengths.len()
    }

    /// The number of positions that each layer holds.
    pub fn len(&self) -> (n: usize)
        ensures
            n == self.positions(),
            n <= self.limit(),
    {
        proof {
            use_type_invariant(self);
        }
        self.filled
    }

    /// The number of positions that layer `layer` holds; `None` where the
    /// decoder has no such layer.
    pub fn layer_len(&self, layer: usize) -> (n: Option<usize>)
        ensures
            n is Some <==> layer < self.layers(),
            n matches Some(k) ==> k == self.positions() && k == self.layer_positions(layer as int),
    {
        proof {
            use_type_invariant(self);
        }
        if layer < self.lengths.len() {
            Some(self.lengths[layer])
        } else {
            None
        }
    }

    /// The largest number of positions that a layer can hold.
    pub fn max_context(&self) -> (n: usize)
        ensures
            n == self.limit(),
    {
        self.max_context
    }

    /// Whether no further position fits.
    pub fn is_full(&self) -> (full: bool)
        ensures
            full == (self.positions() == self.limit()),
    {
        self.filled == self.max_context
    }

    /// Lets every layer take `count` further positions, as the pass over a
    /// prompt of `count` tokens does.
    ///
    /// Where they do not fit into the context nothing changes, and the
    /// result is a cache overflow error.
    pub fn extend(&mut self, count: usize) -> (r: Result<(), PipelineError>)
        ensures
            final(self).layers() == old(self).layers(),
            final(self).limit() == old(self).limit(),
            r is Ok <==> old(self).positions() + count <= old(self).limit(),
            r matches Err(e) ==> e == PipelineError::CacheOverflow,
            r is Ok ==> final(self).positions() == old(self).positions() + count,
            r is Err ==> final(self).positions() == old(self).positions(),
    {
        proof {
            use_type_invariant(&*self);
        }
        if count > self.max_context - self.filled {
            return Err(PipelineError::CacheOverflow);
        }
        let filled: usize = self.filled + count;
        let layers: usize = self.lengths.len();
        let mut lengths: Vec<usize> = Vec::new();
        let mut l: usize = 0;
        while l < layers
            invariant
                l <= layers,
                lengths@.len() == l,
                forall|k: int| 0 <= k < l ==> lengths@[k] == filled,
            decreases layers - l,
        {
            lengths.push(filled);
            l = l + 1;
        }
        *self = KvCache { lengths, filled, max_context: self.max_context };
        Ok(())
    }

    /// Lets every layer take one further position, as each token that is
    /// fed to the decoder does.
    ///
    /// Where the context is full nothing changes, and the result is a cache
    /// overflow error.
    pub fn grow(&mut self) -> (r: Result<(), PipelineError>)
        ensures
            final(self).layers() == old(self).layers(),
            final(self).limit() == old(self).limit(),
            r is Ok <==> old(self).positions() < old(self).limit(),
            r matches Err(e) ==> e == PipelineError::CacheOverflow,
            r is Ok ==> final(self).positions() == old(self).positions() + 1,
            r is Err ==> final(self).positions() == old(self).positions(),
    {
        self.extend(1)
    }
}

} // verus!
