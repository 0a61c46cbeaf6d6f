//! Hybrid autoregressive state of the text stack.
//!
//! Full-attention layers share one key/value cache in which each has the slot
//! of its ordinal. Linear-attention layers keep three `[kernel, channels]`
//! convolution histories and one `[value_heads, key_dim, value_dim]` matrix.
//! The key/value cache itself belongs to the backend: the library decides
//! which slots it has and when it may be written.

use vstd::prelude::*;
use vstd::string::*;

use crate::error::Error;
use crate::qwen35::config::{Qwen35LayerType, Qwen35TextConfig};
use crate::tensor::Tensor;

verus! {

/// The mutable state of one linear-attention layer.
#[derive(Debug, PartialEq, Eq)]
pub struct Qwen35LinearState {
    pub query_conv: Option<Tensor>,
    pub key_conv: Option<Tensor>,
    pub value_conv: Option<Tensor>,
    pub recurrent: Option<Tensor>,
}

impl Qwen35LinearState {
    /// Nothing was run yet.
    pub open spec fn is_clear(self) -> bool {
        &&& self.query_conv is None
        &&& self.key_conv is None
        &&& self.value_conv is None
        &&& self.recurrent is None
    }

    /// A state in which nothing was run yet.
    pub fn new() -> (state: Qwen35LinearState)
        ensures
            state.is_clear(),
    {
        Qwen35LinearState { query_conv: None, key_conv: None, value_conv: None, recurrent: None }
    }

    fn clear(&mut self)
        ensures
            final(self).is_clear(),
    {
        self.query_conv = None;
        self.key_conv = None;
        self.value_conv = None;
        self.recurrent = None;
    }

    /// The current recurrent matrix.
    pub fn recurrent(&self) -> (r: Option<&Tensor>)
        ensures
            r == match &self.recurrent {
                Some(tensor) => Some(tensor),
                None => None,
            },
    {
        self.recurrent.as_ref()
    }

    /// The histories that the next convolution reads: query, key and value.
    pub fn convolution_suffixes(&self) -> (r: [Option<&Tensor>; 3])
        ensures
            r[0] == match &self.query_conv {
                Some(tensor) => Some(tensor),
                None => None,
            },
            r[1] == match &self.key_conv {
                Some(tensor) => Some(tensor),
                None => None,
            },
            r[2] == match &self.value_conv {
                Some(tensor) => Some(tensor),
                None => None,
            },
    {
        [self.query_conv.as_ref(), self.key_conv.as_ref(), self.value_conv.as_ref()]
    }
}

impl Default for Qwen35LinearState {
    fn default() -> (state: Qwen35LinearState)
        ensures
            state.is_clear(),
    {
        Qwen35LinearState::new()
    }
}

/// The number of full-attention layers among the first `n`.
pub open spec fn full_layers_before(kinds: Seq<Qwen35LayerType>, n: int) -> nat
    decreases n,
{
    if n <= 0 {
        0
    } else {
        full_layers_before(kinds, n - 1) + if kinds[n - 1] == Qwen35LayerType::FullAttention {
            1nat
        } else {
            0nat
        }
    }
}

/// The key/value cache that a backend has to provide.
#[derive(Clone, Copy, Debug, PartialEq, Eq, Structural)]
pub struct KvCacheShape {
    pub layers: usize,
    pub n_kv_heads: usize,
    pub head_dim: usize,
    pub max_context: usize,
}

/// Cache and recurrent state of one stream.
#[derive(Debug, PartialEq, Eq)]
pub struct Qwen35HybridState {
    pub linear: Vec<Option<Qwen35LinearState>>,
    pub full_cache_indices: Vec<Option<usize>>,
    pub kv: KvCacheShape,
    pub position: usize,
    pub max_context: usize,
}

impl Qwen35HybridState {
    /// The state has a recurrent slot for each linear-attention layer and a
    /// cache slot for each full-attention layer, in the order of the layers.
    pub open spec fn fits(self, kinds: Seq<Qwen35LayerType>) -> bool {
        &&& self.linear@.len() == kinds.len()
        &&& self.full_cache_indices@.len() == kinds.len()
        &&& self.kv.layers == full_layers_before(kinds, kinds.len() as int)
        &&& self.kv.max_context == self.max_context
        &&& self.position <= self.max_context
        &&& forall|i: int|
            0 <= i < kinds.len() ==> {
                &&& (#[trigger] self.linear@[i] is Some) == (kinds[i]
                    == Qwen35LayerType::LinearAttention)
                &&& self.full_cache_indices@[i] == if kinds[i] == Qwen35LayerType::FullAttention {
                    Some(full_layers_before(kinds, i) as usize)
                } else {
                    None
                }
            }
    }

    /// No layer has run.
    pub open spec fn is_fresh(self) -> bool {
        &&& self.position == 0
        &&& forall|i: int|
            0 <= i < self.linear@.len() && #[trigger] self.linear@[i] is Some
                ==> self.linear@[i]->Some_0.is_clear()
    }

    /// The state is that of a model, and nothing ran.
    pub open spec fn is_made_for(
        self,
        config: Qwen35TextConfig,
        requested_max_context: usize,
    ) -> bool {
        &&& self.fits(config.layer_types@)
        &&& self.is_fresh()
        &&& self.max_context == if requested_max_context <= config.max_position_embeddings {
            requested_max_context
        } else {
            config.max_position_embeddings
        }
        &&& self.kv.n_kv_heads == config.n_kv_heads
        &&& self.kv.head_dim == config.head_dim
    }

    /// Makes the state of a model. The context is limited by what the model
    /// can address.
    pub fn new(config: &Qwen35TextConfig, requested_max_context: usize) -> (r: Result<
        Qwen35HybridState,
        Error,
    >)
        ensures
            match r {
                Ok(state) => {
                    &&& requested_max_context > 0
                    &&& state.fits(config.layer_types@)
                    &&& state.is_fresh()
                    &&& state.max_context == if requested_max_context
                        <= config.max_position_embeddings {
                        requested_max_context
                    } else {
                        config.max_position_embeddings
                    }
                    &&& state.kv.n_kv_heads == config.n_kv_heads
                    &&& state.kv.head_dim == config.head_dim
                },
                Err(e) => requested_max_context == 0 && e == Error::ZeroContext,
            },
            r matches Ok(state) ==> state.is_made_for(*config, requested_max_context),
    {
        if requested_max_context == 0 {
            return Err(Error::ZeroContext);
        }
        let max_context: usize = if requested_max_context <= config.max_position_embeddings {
            requested_max_context
        } else {
            config.max_position_embeddings
        };
        let ghost kinds = config.layer_types@;
        let mut linear: Vec<Option<Qwen35LinearState>> = Vec::new();
        let mut full_cache_indices: Vec<Option<usize>> = Vec::new();
        let mut full_count: usize = 0;
        let mut i: usize = 0;
        while i < config.layer_types.len()
            invariant
                i <= config.layer_types@.len(),
                kinds == config.layer_types@,
                linear@.len() == i,
                full_cache_indices@.len() == i,
                full_count <= i,
                full_count == full_layers_before(kinds, i as int),
                forall|j: int|
                    0 <= j < i ==> {
                        &&& (#[trigger] linear@[j] is Some) == (kinds[j]
                            == Qwen35LayerType::LinearAttention)
                        &&& linear@[j] is Some ==> linear@[j]->Some_0.is_clear()
                        &&& full_cache_indices@[j] == if kinds[j]
                            == Qwen35LayerType::FullAttention {
                            Some(full_layers_before(kinds, j) as usize)
                        } else {
                            None
                        }
                    },
            decreases config.layer_types@.len() - i,
        {
            match config.layer_types[i] {
                Qwen35LayerType::LinearAttention => {
                    linear.push(Some(Qwen35LinearState::new()));
                    full_cache_indices.push(None);
                },
                Qwen35LayerType::FullAttention => {
                    linear.push(None);
                    full_cache_indices.push(Some(full_count));
                    full_count = full_count + 1;
                },
            }
            i = i + 1;
        }
        Ok(
            Qwen35HybridState {
                linear,
                full_cache_indices,
                kv: KvCacheShape {
                    layers: full_count,
                    n_kv_heads: config.n_kv_heads,
                    head_dim: config.head_dim,
                    max_context,
                },
                position: 0,
                max_context,
            },
        )
    }

    /// The number of tokens that the caches hold.
    pub fn position(&self) -> (position: usize)
        ensures
            position == self.position,
    {
        self.position
    }

    /// The greatest number of tokens that the caches can hold.
    pub fn max_context(&self) -> (max_context: usize)
        ensures
            max_context == self.max_context,
    {
        self.max_context
    }

    /// The number of layers in the key/value cache.
    pub fn full_attention_layers(&self) -> (layers: usize)
        ensures
            layers == self.kv.layers,
    {
        self.kv.layers
    }

    /// The state of a linear-attention layer.
    pub open spec fn linear_state_of(self, layer_index: int) -> Option<Qwen35LinearState> {
        if 0 <= layer_index < self.linear@.len() {
            self.linear@[layer_index]
        } else {
            None
        }
    }

    /// The state of a linear-attention layer.
    pub fn linear_state(&self, layer_index: usize) -> (r: Option<&Qwen35LinearState>)
        ensures
            match r {
                Some(state) => self.linear_state_of(layer_index as int) == Some(*state),
                None => self.linear_state_of(layer_index as int) is None,
            },
    {
        if layer_index < self.linear.len() {
            self.linear[layer_index].as_ref()
        } else {
            None
        }
    }

    /// Puts the state that a layer left in place of the one it started from.
    pub fn linear_state_mut(&mut self, layer_index: usize, state: Qwen35LinearState) -> (r: Result<
        (),
        Error,
    >)
        ensures
            match r {
                Ok(_) => {
                    &&& old(self).linear_state_of(layer_index as int) is Some
                    &&& final(self).linear@ == old(self).linear@.update(
                        layer_index as int,
                        Some(state),
                    )
                    &&& *final(self) == (Qwen35HybridState {
                        linear: final(self).linear,
                        ..*old(self)
                    })
                },
                Err(e) => {
                    &&& old(self).linear_state_of(layer_index as int) is None
                    &&& e == (Error::NoLinearState { layer_index })
                    &&& *final(self) == *old(self)
                },
            },
    {
        if layer_index < self.linear.len() && self.linear[layer_index].is_some() {
            self.linear[layer_index] = Some(state);
            Ok(())
        } else {
            Err(Error::NoLinearState { layer_index })
        }
    }

    /// The cache slot of a full-attention layer.
    pub open spec fn cache_slot(self, layer_index: int) -> Option<usize> {
        if 0 <= layer_index < self.full_cache_indices@.len() {
            self.full_cache_indices@[layer_index]
        } else {
            None
        }
    }

    /// The cache slot of a full-attention layer.
    pub fn full_cache_index(&self, layer_index: usize) -> (r: Result<usize, Error>)
        ensures
            match self.cache_slot(layer_index as int) {
                Some(slot) => r == Ok::<usize, Error>(slot),
                None => r == Err::<usize, Error>(Error::NoKvCache { layer_index }),
            },
    {
        if layer_index < self.full_cache_indices.len() {
            match self.full_cache_indices[layer_index] {
                Some(slot) => Ok(slot),
                None => Err(Error::NoKvCache { layer_index }),
            }
        } else {
            Err(Error::NoKvCache { layer_index })
        }
    }

    /// What is wrong with a forward of `length` tokens from `start` on, when
    /// the key/value cache holds `kv_position` tokens.
    pub open spec fn forward_error(self, start: int, length: int, kv_position: int) -> Option<
        Error,
    > {
        if start != self.position {
            Some(Error::StartPosition { start_pos: start as usize, position: self.position })
        } else if kv_position != self.position {
            Some(
                Error::KvPosition { kv_position: kv_position as usize, position: self.position },
            )
        } else if start + length > usize::MAX {
            Some(Error::ContextOverflow)
        } else if start + length > self.max_context {
            Some(
                Error::ContextExceeded {
                    end: (start + length) as usize,
                    max_context: self.max_context,
                },
            )
        } else {
            None
        }
    }

    /// A forward must start where the caches end, and must fit.
    pub fn validate_forward(
        &self,
        start_pos: u32,
        sequence_length: usize,
        kv_position: usize,
    ) -> (r: Result<(), Error>)
        ensures
            match self.forward_error(start_pos as int, sequence_length as int, kv_position as int) {
                Some(e) => r == Err::<(), Error>(e),
                None => r == Ok::<(), Error>(()),
            },
    {
        let start: usize = start_pos as usize;
        if start != self.position {
            return Err(Error::StartPosition { start_pos: start, position: self.position });
        }
        if kv_position != self.position {
            return Err(Error::KvPosition { kv_position, position: self.position });
        }
        match start.checked_add(sequence_length) {
            None => Err(Error::ContextOverflow),
            Some(end) => if end > self.max_context {
                Err(Error::ContextExceeded { end, max_context: self.max_context })
            } else {
                Ok(())
            },
        }
    }

    /// Moves the position on after a whole forward.
    pub fn advance(&mut self, sequence_length: usize)
        requires
            old(self).position + sequence_length <= usize::MAX,
        ensures
            *final(self) == (Qwen35HybridState {
                position: (old(self).position + sequence_length) as usize,
                ..*old(self)
            }),
    {
        self.position = self.position + sequence_length;
    }

    /// Forgets everything that was run, once the key/value cache is cleared.
    /// Where clearing it failed, nothing changes.
    pub fn reset(&mut self, kv_cleared: Result<(), String>) -> (r: Result<(), Error>)
        ensures
            match kv_cleared {
                Ok(_) => {
                    &&& r is Ok
                    &&& final(self).is_fresh()
                    &&& final(self).linear@.len() == old(self).linear@.len()
                    &&& forall|i: int|
                        0 <= i < old(self).linear@.len() ==> (#[trigger] final(self).linear@[i]
                            is Some) == (old(self).linear@[i] is Some)
                    &&& *final(self) == (Qwen35HybridState {
                        linear: final(self).linear,
                        position: 0,
                        ..*old(self)
                    })
                },
                Err(cause) => {
                    &&& r == Err::<(), Error>(Error::Reported { cause })
                    &&& *final(self) == *old(self)
                },
            },
    {
        if let Err(cause) = kv_cleared {
            return Err(Error::Reported { cause });
        }
        let n: usize = self.linear.len();
        let ghost before = self.linear@;
        let ghost start = *self;
        let mut i: usize = 0;
        while i < n
            invariant
                i <= n,
                n == self.linear@.len(),
                n == before.len(),
                forall|j: int|
                    0 <= j < n ==> (#[trigger] self.linear@[j] is Some) == (before[j] is Some),
                forall|j: int|
                    0 <= j < i && #[trigger] self.linear@[j] is Some
                        ==> self.linear@[j]->Some_0.is_clear(),
                *self == (Qwen35HybridState { linear: self.linear, ..start }),
            decreases n - i,
        {
            if self.linear[i].is_some() {
                self.linear[i] = Some(Qwen35LinearState::new());
            }
            i = i + 1;
        }
        self.position = 0;
        Ok(())
    }
}

/// The cache slots of the full-attention layers are `0, 1, 2, ...` in the
/// order of the layers: each is below the number of slots, and a later layer
/// has a later slot.
pub proof fn cache_slots_are_ordinals(kinds: Seq<Qwen35LayerType>, i: int, j: int)
    requires
        0 <= i < j <= kinds.len(),
        kinds[i] == Qwen35LayerType::FullAttention,
    ensures
        full_layers_before(kinds, i) < full_layers_before(kinds, j),
        full_layers_before(kinds, j) <= full_layers_before(kinds, kinds.len() as int),
        full_layers_before(kinds, i + 1) == full_layers_before(kinds, i) + 1,
    decreases kinds.len() - i,
{
    full_layers_grow(kinds, i + 1, j);
    full_layers_grow(kinds, j, kinds.len() as int);
}

proof fn full_layers_grow(kinds: Seq<Qwen35LayerType>, i: int, j: int)
    requires
        0 <= i <= j <= kinds.len(),
    ensures
        full_layers_before(kinds, i) <= full_layers_before(kinds, j),
    decreases j - i,
{
    if i < j {
        full_layers_grow(kinds, i, j - 1);
    }
}

} // verus!
