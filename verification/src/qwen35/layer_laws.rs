//! Which layers a model has of each kind, what a fresh state holds, and which
//! elements a rotation pairs.

use vstd::prelude::*;

use crate::float_bits::{is_finite, rank};
use crate::float_laws::{number, patterns_are_ordered_as_numbers};
use crate::qwen35::config::{Qwen35LayerType, Qwen35TextConfig};
use crate::qwen35::forward_laws::{full_layers_in_front, slots_count_full_layers};
use crate::qwen35::layers::{
    full_layers, run_end, run_starts, runs_fault, stack_runs_fault,
};
use crate::qwen35::rope::{rope_fault, Qwen35TextRopeTable};
use crate::qwen35::state::{Qwen35HybridState, Qwen35LinearState};

verus! {

proof fn full_layers_are_full(kinds: Seq<Qwen35LayerType>, n: nat)
    requires
        n <= kinds.len() <= usize::MAX,
    ensures
        forall|k: int|
            0 <= k < full_layers(kinds, n).len() ==> {
                &&& (#[trigger] full_layers(kinds, n)[k]) < n
                &&& kinds[full_layers(kinds, n)[k] as int] == Qwen35LayerType::FullAttention
            },
        forall|j: int, k: int|
            0 <= j < k < full_layers(kinds, n).len() ==> full_layers(kinds, n)[j] < full_layers(
                kinds,
                n,
            )[k],
        forall|i: int|
            0 <= i < n && #[trigger] kinds[i] == Qwen35LayerType::FullAttention ==> full_layers(
                kinds,
                n,
            ).contains(i as usize),
    decreases n,
{
    if n > 0 {
        full_layers_are_full(kinds, (n - 1) as nat);
        let shorter = full_layers(kinds, (n - 1) as nat);
        let all = full_layers(kinds, n);
        assert forall|i: int|
            0 <= i < n && #[trigger] kinds[i] == Qwen35LayerType::FullAttention implies all.contains(
            i as usize,
        ) by {
            if i < n - 1 {
                assert(shorter.contains(i as usize));
                let k = choose|k: int| 0 <= k < shorter.len() && shorter[k] == i as usize;
                assert(all[k] == i as usize);
            } else {
                assert(all.last() == i as usize);
            }
        }
    }
}

/// The listed full-attention layers are those of the model, all of them, each
/// once and in their order.
pub proof fn the_full_layers_are_listed(kinds: Seq<Qwen35LayerType>, layer: usize)
    requires
        kinds.len() <= usize::MAX,
    ensures
        ({
            let listed = full_layers(kinds, kinds.len());
            &&& listed.contains(layer) <==> (layer < kinds.len() && kinds[layer as int]
                == Qwen35LayerType::FullAttention)
            &&& forall|j: int, k: int| 0 <= j < k < listed.len() ==> listed[j] < listed[k]
        }),
{
    full_layers_are_full(kinds, kinds.len());
    if layer < kinds.len() && kinds[layer as int] == Qwen35LayerType::FullAttention {
        assert(full_layers(kinds, kinds.len()).contains(layer));
    }
}

proof fn a_run_goes_to_its_end(kinds: Seq<Qwen35LayerType>, i: nat)
    requires
        i <= kinds.len(),
    ensures
        i <= run_end(kinds, i) <= kinds.len(),
        forall|j: int|
            i <= j < run_end(kinds, i) ==> #[trigger] kinds[j] == Qwen35LayerType::LinearAttention,
        run_end(kinds, i) < kinds.len() ==> kinds[run_end(kinds, i) as int]
            == Qwen35LayerType::FullAttention,
    decreases kinds.len() - i,
{
    if i < kinds.len() && kinds[i as int] == Qwen35LayerType::LinearAttention {
        a_run_goes_to_its_end(kinds, i + 1);
    }
}

proof fn starts_begin_runs(kinds: Seq<Qwen35LayerType>, route: &'static str, i: nat)
    requires
        i <= kinds.len() <= usize::MAX,
        i > 0 && i < kinds.len() && kinds[i as int] == Qwen35LayerType::LinearAttention
            ==> kinds[i - 1] == Qwen35LayerType::FullAttention,
        runs_fault(kinds, route, i) is None,
    ensures
        forall|k: int|
            0 <= k < run_starts(kinds, i).len() ==> {
                let start = (#[trigger] run_starts(kinds, i)[k]) as int;
                &&& i <= start
                &&& start + 3 <= kinds.len()
                &&& kinds[start] == Qwen35LayerType::LinearAttention
                &&& kinds[start + 1] == Qwen35LayerType::LinearAttention
                &&& kinds[start + 2] == Qwen35LayerType::LinearAttention
                &&& start > 0 ==> kinds[start - 1] == Qwen35LayerType::FullAttention
                &&& start + 3 < kinds.len() ==> kinds[start + 3] == Qwen35LayerType::FullAttention
            },
        forall|j: int, k: int|
            0 <= j < k < run_starts(kinds, i).len() ==> run_starts(kinds, i)[j] + 3 < run_starts(
                kinds,
                i,
            )[k],
    decreases kinds.len() - i,
{
    if i < kinds.len() {
        if kinds[i as int] == Qwen35LayerType::LinearAttention {
            a_run_goes_to_its_end(kinds, i);
            a_run_goes_to_its_end(kinds, i + 1);
            let end = run_end(kinds, i);
            if end < kinds.len() {
                assert(kinds[end as int] == Qwen35LayerType::FullAttention);
                starts_begin_runs(kinds, route, end + 1);
                assert(run_starts(kinds, end) == run_starts(kinds, end + 1));
                assert(runs_fault(kinds, route, end) == runs_fault(kinds, route, end + 1));
            } else {
                assert(run_starts(kinds, end) =~= Seq::<usize>::empty());
            }
            let rest = run_starts(kinds, end);
            let all = run_starts(kinds, i);
            assert(all =~= seq![i as usize] + rest);
            assert forall|k: int| 0 <= k < all.len() implies ({
                let start = (#[trigger] all[k]) as int;
                &&& i <= start
                &&& start + 3 <= kinds.len()
                &&& kinds[start] == Qwen35LayerType::LinearAttention
                &&& kinds[start + 1] == Qwen35LayerType::LinearAttention
                &&& kinds[start + 2] == Qwen35LayerType::LinearAttention
                &&& start > 0 ==> kinds[start - 1] == Qwen35LayerType::FullAttention
                &&& start + 3 < kinds.len() ==> kinds[start + 3] == Qwen35LayerType::FullAttention
            }) by {
                if k > 0 {
                    assert(all[k] == rest[k - 1]);
                }
            }
            assert forall|j: int, k: int| 0 <= j < k < all.len() implies all[j] + 3 < all[k] by {
                assert(all[k] == rest[k - 1]);
                if j > 0 {
                    assert(all[j] == rest[j - 1]);
                }
            }
        } else {
            starts_begin_runs(kinds, route, i + 1);
        }
    }
}

/// A stack is found at the first layer of every run of exactly three linear
/// layers; the stacks follow each other, with full attention between.
pub proof fn a_stack_is_a_run_of_three(kinds: Seq<Qwen35LayerType>, route: &'static str, k: int)
    requires
        stack_runs_fault(kinds, route) is None,
        kinds.len() <= usize::MAX,
        0 <= k < run_starts(kinds, 0).len(),
    ensures
        ({
            let start = run_starts(kinds, 0)[k] as int;
            &&& start + 3 <= kinds.len()
            &&& forall|l: int|
                start <= l < start + 3 ==> #[trigger] kinds[l] == Qwen35LayerType::LinearAttention
            &&& start > 0 ==> kinds[start - 1] == Qwen35LayerType::FullAttention
            &&& start + 3 < kinds.len() ==> kinds[start + 3] == Qwen35LayerType::FullAttention
            &&& k + 1 < run_starts(kinds, 0).len() ==> start + 3 < run_starts(kinds, 0)[k + 1]
        }),
        full_layers(kinds, kinds.len()).len() > 0,
{
    starts_begin_runs(kinds, route, 0);
}

/// A state has a cache for each full-attention layer and a recurrent state for
/// each linear-attention layer, and no layer has both.
pub proof fn a_state_has_one_place_for_each_layer(
    state: Qwen35HybridState,
    kinds: Seq<Qwen35LayerType>,
    layer: int,
)
    requires
        state.fits(kinds),
        0 <= layer < kinds.len(),
    ensures
        state.linear@.len() == kinds.len(),
        state.kv.layers == full_layers_in_front(kinds, kinds.len() as int),
        state.kv.max_context == state.max_context,
        match kinds[layer] {
            Qwen35LayerType::LinearAttention => state.linear_state_of(layer) is Some
                && state.cache_slot(layer) is None,
            Qwen35LayerType::FullAttention => state.linear_state_of(layer) is None
                && state.cache_slot(layer) == Some(full_layers_in_front(kinds, layer) as usize),
        },
        state.linear_state_of(kinds.len() as int) is None,
        state.cache_slot(kinds.len() as int) is None,
{
    slots_count_full_layers(kinds, layer);
    slots_count_full_layers(kinds, kinds.len() as int);
    assert(state.linear@[layer] is Some == (kinds[layer] == Qwen35LayerType::LinearAttention));
}

/// A fresh state stands at the start and remembers nothing of any layer.
pub proof fn a_fresh_state_remembers_nothing(state: Qwen35HybridState, layer: int)
    requires
        state.is_fresh(),
    ensures
        state.position == 0,
        state.linear_state_of(layer) matches Some(kept) ==> kept == (Qwen35LinearState {
            query_conv: None,
            key_conv: None,
            value_conv: None,
            recurrent: None,
        }),
{
}

/// A forward is accepted exactly where the stream and its cache stand, and while
/// it fits in the context.
pub proof fn a_forward_is_accepted_where_the_stream_stands(
    state: Qwen35HybridState,
    start: int,
    length: int,
    kv_position: int,
)
    requires
        0 <= start <= usize::MAX,
        0 <= length,
    ensures
        state.forward_error(start, length, kv_position) is None <==> {
            &&& start == state.position
            &&& kv_position == state.position
            &&& start + length <= state.max_context
        },
{
}

/// The widths of a layer are those of its heads.
pub proof fn widths_are_those_of_the_heads(text: Qwen35TextConfig)
    ensures
        text.key_width() == text.linear_num_key_heads * text.linear_key_head_dim,
        text.value_width() == text.linear_num_value_heads * text.linear_value_head_dim,
        text.qkv_width() == text.key_width() + text.key_width() + text.value_width(),
        text.query_width() == text.n_attention_heads * text.head_dim,
        text.kv_width() == text.n_kv_heads * text.head_dim,
        text.query_projection_width() == text.query_width() + if text.attn_output_gate {
            text.query_width()
        } else {
            0
        },
{
}

/// A valid configuration lists one kind for each layer and no layer beyond.
pub proof fn every_layer_has_a_kind(text: Qwen35TextConfig, layer: int)
    requires
        text.is_valid(),
        0 <= layer,
    ensures
        text.kind(layer) is Some <==> layer < text.n_layers,
        layer < text.n_layers ==> text.kind(layer) == Some(text.layer_types@[layer]),
        text.qkv_width() <= usize::MAX,
        text.query_projection_width() <= usize::MAX,
        text.kv_width() <= usize::MAX,
        text.validity_fault() is None,
{
}

/// A table is laid out where there are tokens, where an even part of the head is
/// rotated and where the base of the angles is a positive number.
pub proof fn a_table_needs_an_even_part_and_a_positive_base(
    config: Qwen35TextConfig,
    sequence_length: usize,
)
    ensures
        rope_fault(config, sequence_length) is None <==> {
            &&& sequence_length > 0
            &&& 0 < config.rotary_dim <= config.head_dim
            &&& config.rotary_dim % 2 == 0
            &&& is_finite(config.rope_theta_bits)
            &&& number(config.rope_theta_bits) > 0
            &&& sequence_length * (config.rotary_dim / 2) <= usize::MAX
        },
{
    if is_finite(config.rope_theta_bits) {
        patterns_are_ordered_as_numbers(config.rope_theta_bits, 0);
        assert(is_finite(0));
        zero_is_zero();
        assert(rank(0) == 0);
    }
}

proof fn zero_is_zero()
    ensures
        number(0) == 0,
{
    vstd::arithmetic::power2::lemma2_to64();
    assert(0 * vstd::arithmetic::power2::pow2(0) == 0) by (nonlinear_arith);
}

/// The place of an element in a tensor of tokens, heads and head elements.
pub open spec fn element_place(
    heads: int,
    head_dim: int,
    token: int,
    head: int,
    element: int,
) -> int {
    token * (heads * head_dim) + head * head_dim + element
}

/// A rotation turns an element of the first half of the rotary part of a head
/// together with the element of the second half at the same place, by the angle
/// of the token and of that place.
pub proof fn a_rotation_pairs_the_halves(
    table: Qwen35TextRopeTable,
    heads: usize,
    token: usize,
    head: usize,
    pair: usize,
)
    requires
        table.is_valid(),
        token < table.sequence_length,
        head < heads,
        pair < table.rotary_dim / 2,
    ensures
        ({
            let (entry, first, second) = table.places(heads, token, head, pair);
            let half = table.rotary_dim as int / 2;
            let width = table.head_dim as int;
            &&& first == element_place(
                heads as int,
                width,
                token as int,
                head as int,
                pair as int,
            )
            &&& second == element_place(
                heads as int,
                width,
                token as int,
                head as int,
                pair + half,
            )
            &&& pair + half < table.rotary_dim
            &&& entry == half * token + pair
        }),
{
    let width = table.head_dim as int;
    assert((token * heads + head) * width == token * (heads * width) + head * width)
        by (nonlinear_arith);
    let half = table.rotary_dim as int / 2;
    assert(token * half == half * token) by (nonlinear_arith);
}

} // verus!
