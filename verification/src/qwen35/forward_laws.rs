//! Which work a forward asks for, on which layer and with which cache.

use vstd::prelude::*;

use crate::qwen35::config::Qwen35LayerType;
use crate::qwen35::forward::{ForwardRun, Frame, Work};
use crate::qwen35::model::GeneralQwen35;
use crate::qwen35::state::{full_layers_before, Qwen35LinearState};
use crate::tensor::Tensor;

verus! {

/// The number of full-attention layers in front of a layer.
pub open spec fn full_layers_in_front(kinds: Seq<Qwen35LayerType>, layer: int) -> nat {
    kinds.take(layer).filter(
        |kind: Qwen35LayerType| kind == Qwen35LayerType::FullAttention,
    ).len()
}

/// The slots are counted by the full-attention layers in front.
pub proof fn slots_count_full_layers(kinds: Seq<Qwen35LayerType>, layer: int)
    requires
        0 <= layer <= kinds.len(),
    ensures
        full_layers_before(kinds, layer) == full_layers_in_front(kinds, layer),
    decreases layer,
{
    reveal(Seq::filter);
    let full = |kind: Qwen35LayerType| kind == Qwen35LayerType::FullAttention;
    if layer > 0 {
        slots_count_full_layers(kinds, layer - 1);
        assert(kinds.take(layer).drop_last() =~= kinds.take(layer - 1));
        assert(kinds.take(layer).last() == kinds[layer - 1]);
    } else {
        assert(kinds.take(0).filter(full).len() == 0);
    }
}

proof fn more_layers_in_front(kinds: Seq<Qwen35LayerType>, i: int, j: int)
    requires
        0 <= i < j <= kinds.len(),
        kinds[i] == Qwen35LayerType::FullAttention,
    ensures
        full_layers_in_front(kinds, i) < full_layers_in_front(kinds, j),
    decreases j - i,
{
    slots_count_full_layers(kinds, i);
    slots_count_full_layers(kinds, j);
    if i + 1 < j {
        more_layers_in_front(kinds, i, j - 1);
        slots_count_full_layers(kinds, j - 1);
    }
}

/// The cache slot that some work asks for.
pub open spec fn asked_slot(work: Work) -> Option<usize> {
    match work {
        Work::FullAttention { cache_index, .. } => Some(cache_index),
        Work::FullResidual { cache_index, .. } => Some(cache_index),
        _ => None,
    }
}

/// A layer with full attention keeps its own slot of the cache: whatever lane the
/// model has, and whether it prefills or decodes, the slot that is asked for is
/// the number of full-attention layers in front of the layer.
pub proof fn a_layer_asks_for_its_own_slot(
    model: GeneralQwen35,
    frame: Frame,
    layer_index: usize,
    hidden: Tensor,
    normed: Tensor,
    after: GeneralQwen35,
    next: ForwardRun,
)
    requires
        model.wf(),
        layer_index < model.config.text.n_layers,
        model.enters(frame, layer_index, hidden, after, Ok(next)) || model.attends(
            frame,
            layer_index,
            hidden,
            normed,
            after,
            Ok(next),
        ),
    ensures
        ({
            let kinds = model.config.text.layer_types@;
            &&& next.layer_index == layer_index
            &&& next.frame == frame
            &&& asked_slot(next.work) matches Some(slot) ==> {
                &&& kinds[layer_index as int] == Qwen35LayerType::FullAttention
                &&& slot == full_layers_in_front(kinds, layer_index as int)
                &&& slot < model.state.kv.layers
            }
        }),
{
    let kinds = model.config.text.layer_types@;
    let layer = layer_index as int;
    assert((model.state.linear@[layer] is Some) == (kinds[layer]
        == Qwen35LayerType::LinearAttention));
    slots_count_full_layers(kinds, layer);
    slots_count_full_layers(kinds, kinds.len() as int);
    if kinds[layer] == Qwen35LayerType::FullAttention {
        more_layers_in_front(kinds, layer, kinds.len() as int);
    }
}

/// Two layers never ask for the same slot.
pub proof fn two_layers_never_share_a_slot(
    model: GeneralQwen35,
    frames: (Frame, Frame),
    layers: (usize, usize),
    inputs: (Tensor, Tensor),
    normed: (Tensor, Tensor),
    after: (GeneralQwen35, GeneralQwen35),
    next: (ForwardRun, ForwardRun),
)
    requires
        model.wf(),
        layers.0 < layers.1 < model.config.text.n_layers,
        model.enters(frames.0, layers.0, inputs.0, after.0, Ok(next.0)) || model.attends(
            frames.0,
            layers.0,
            inputs.0,
            normed.0,
            after.0,
            Ok(next.0),
        ),
        model.enters(frames.1, layers.1, inputs.1, after.1, Ok(next.1)) || model.attends(
            frames.1,
            layers.1,
            inputs.1,
            normed.1,
            after.1,
            Ok(next.1),
        ),
        asked_slot(next.0.work) is Some,
        asked_slot(next.1.work) is Some,
    ensures
        asked_slot(next.0.work)->Some_0 < asked_slot(next.1.work)->Some_0,
{
    a_layer_asks_for_its_own_slot(
        model,
        frames.0,
        layers.0,
        inputs.0,
        normed.0,
        after.0,
        next.0,
    );
    a_layer_asks_for_its_own_slot(
        model,
        frames.1,
        layers.1,
        inputs.1,
        normed.1,
        after.1,
        next.1,
    );
    more_layers_in_front(
        model.config.text.layer_types@,
        layers.0 as int,
        layers.1 as int,
    );
}

/// The input of a layer is what the work on the layer gets, and behind the last
/// layer it is what the forward ends with.
pub proof fn a_layer_gets_its_input(
    model: GeneralQwen35,
    frame: Frame,
    layer_index: usize,
    hidden: Tensor,
    after: GeneralQwen35,
    next: ForwardRun,
)
    requires
        model.enters(frame, layer_index, hidden, after, Ok(next)),
    ensures
        match next.work {
            Work::InputNorm { hidden: given } => given == hidden,
            Work::Reference { hidden: given } => given == hidden,
            Work::LinearLayer { hidden: given } => given == hidden,
            Work::Stack { hidden: given, .. } => given == hidden,
            Work::InitialStack { hidden: given } => given == hidden,
            Work::FullResidual { hidden: given, .. } => given == hidden,
            Work::Finished { hidden: given } => {
                &&& given == hidden
                &&& layer_index >= model.config.text.n_layers
                &&& after.state.position == (model.state.position
                    + frame.sequence_length) as usize
            },
            _ => false,
        },
        next.work is Finished <==> layer_index >= model.config.text.n_layers,
        next.work !is Finished ==> after.state == model.state,
        after.state.linear == model.state.linear,
        after.state.full_cache_indices == model.state.full_cache_indices,
        after.config == model.config,
        after.weights == model.weights,
{
}

/// Attention gets the normed input under that name and the input itself under
/// the other, and runs by the kind of the layer.
pub proof fn attention_gets_the_normed_input(
    model: GeneralQwen35,
    frame: Frame,
    layer_index: usize,
    hidden: Tensor,
    normed: Tensor,
    after: GeneralQwen35,
    next: ForwardRun,
)
    requires
        model.attends(frame, layer_index, hidden, normed, after, Ok(next)),
    ensures
        match next.work {
            Work::FullAttention { hidden: h, normed: n, .. } => {
                &&& h == hidden
                &&& n == normed
                &&& model.config.text.layer_types@[layer_index as int]
                    == Qwen35LayerType::FullAttention
            },
            Work::LinearAttention { hidden: h, normed: n } => {
                &&& h == hidden
                &&& n == normed
                &&& model.config.text.layer_types@[layer_index as int]
                    == Qwen35LayerType::LinearAttention
            },
            Work::GdnDecode { hidden: h, normed: n } => {
                &&& h == hidden
                &&& n == normed
                &&& frame.start_pos > 0
                &&& model.config.text.layer_types@[layer_index as int]
                    == Qwen35LayerType::LinearAttention
            },
            _ => false,
        },
        after == model,
{
}

/// The state that linear attention left is kept at its own layer and at no
/// other, and the output goes into the residual of the same input.
pub proof fn a_state_is_kept_at_its_layer(
    model: GeneralQwen35,
    frame: Frame,
    layer_index: usize,
    hidden: Tensor,
    attention: Tensor,
    state: Qwen35LinearState,
    after: GeneralQwen35,
    next: ForwardRun,
)
    requires
        model.recurs(frame, layer_index, hidden, attention, state, after, Ok(next)),
        layer_index < model.state.linear@.len(),
    ensures
        after.state.linear@[layer_index as int] == Some(state),
        forall|i: int|
            0 <= i < model.state.linear@.len() && i != layer_index
                ==> #[trigger] after.state.linear@[i] == model.state.linear@[i],
        after.state.position == model.state.position,
        after.lane == model.lane,
        match next.work {
            Work::Residual { hidden: h, attention: a } => h == hidden && a == attention,
            Work::PrepareSeed { hidden: h, attention: a, state: seed } => {
                &&& h == hidden
                &&& a == attention
                &&& seed.query_conv@ == state.query_conv->Some_0.data()
                &&& seed.key_conv@ == state.key_conv->Some_0.data()
                &&& seed.value_conv@ == state.value_conv->Some_0.data()
                &&& seed.recurrent@ == state.recurrent->Some_0.data()
            },
            _ => false,
        },
{
}

/// The feed-forward block gets the normed residual under that name and the
/// residual itself under the other.
pub proof fn the_feed_forward_gets_the_normed_residual(
    model: GeneralQwen35,
    frame: Frame,
    layer_index: usize,
    residual: Tensor,
    normed: Tensor,
    after: GeneralQwen35,
    next: ForwardRun,
)
    requires
        model.feeds(frame, layer_index, residual, normed, after, Ok(next)),
    ensures
        match next.work {
            Work::Mlp { residual: kept, normed: n } => kept == residual && n == normed,
            Work::MlpBlock { residual: kept, normed: n } => kept == residual && n == normed
                && frame.start_pos > 0 && normed.dims()[0] == 1,
            Work::GateUp { residual: kept, normed: n } => kept == residual && n == normed
                && frame.start_pos > 0 && normed.dims()[0] == 1,
            _ => false,
        },
        after == model,
        next.layer_index == layer_index,
{
}

/// A forward is refused where there are no tokens, where a token is not in the
/// vocabulary, where it does not start where the stream and the caches end, and
/// where it does not fit the context.
pub proof fn a_forward_starts_where_the_stream_ends(
    model: GeneralQwen35,
    tokens: Seq<u32>,
    start_pos: u32,
    kv_position: usize,
)
    requires
        model.forward_fault(tokens, start_pos, kv_position) is None,
    ensures
        tokens.len() > 0,
        forall|i: int|
            0 <= i < tokens.len() ==> (#[trigger] tokens[i]) < model.config.text.vocab_size,
        start_pos == model.state.position,
        kv_position == model.state.position,
        start_pos + tokens.len() <= model.state.max_context,
        model.terminal_fault() is None,
{
    tokens_are_known(tokens, model.config.text.vocab_size, 0);
}

proof fn tokens_are_known(tokens: Seq<u32>, vocab_size: usize, from: nat)
    requires
        crate::qwen35::forward::tokens_fault(tokens, vocab_size, from) is None,
    ensures
        forall|i: int| from <= i < tokens.len() ==> (#[trigger] tokens[i]) < vocab_size,
    decreases tokens.len() - from,
{
    if from < tokens.len() {
        tokens_are_known(tokens, vocab_size, from + 1);
    }
}

/// The other way round: on a model that is not terminal, tokens of the
/// vocabulary that start where the stream ends and fit the context are taken,
/// one at a time behind a prefill where stacks own the state, as long as the
/// table of rotations can be laid out.
pub proof fn a_forward_that_fits_is_taken(
    model: GeneralQwen35,
    tokens: Seq<u32>,
    kv_position: usize,
    start_pos: u32,
)
    requires
        model.terminal_fault() is None,
        0 < tokens.len() <= usize::MAX,
        forall|i: int|
            0 <= i < tokens.len() ==> (#[trigger] tokens[i]) < model.config.text.vocab_size,
        start_pos == model.state.position,
        kv_position == model.state.position,
        start_pos + tokens.len() <= model.state.max_context,
        start_pos == 0 || tokens.len() == 1 || !model.lane.owns_stacks(),
        crate::qwen35::rope::rope_fault(model.config.text, tokens.len() as usize) is None,
    ensures
        model.forward_fault(tokens, start_pos, kv_position) is None,
{
    known_tokens_are_taken(tokens, model.config.text.vocab_size, 0);
}

proof fn known_tokens_are_taken(tokens: Seq<u32>, vocab_size: usize, from: nat)
    requires
        forall|i: int| 0 <= i < tokens.len() ==> (#[trigger] tokens[i]) < vocab_size,
    ensures
        crate::qwen35::forward::tokens_fault(tokens, vocab_size, from) is None,
    decreases tokens.len() - from,
{
    if from < tokens.len() {
        known_tokens_are_taken(tokens, vocab_size, from + 1);
    }
}

} // verus!
