//! The lane of accelerated stacks: which layers belong to which stack.

use vstd::prelude::*;

use crate::error::{answers, Error, Fault, FaultOrder};
use crate::qwen35::config::{Qwen35LayerType, Qwen35TextConfig};
use crate::qwen35::ledger::Qwen35MetalW8LinearLayerStack3BufferLedger;
use crate::qwen35::linear_lane::GdnDecodeState;
use crate::qwen35::loader::Qwen35TextWeights;
use crate::qwen35::metal::{FunctionChains, GdnCoreProfileV1, LinearLayerStack3MetalStats};
use crate::qwen35::mlp_lane::Qwen35MetalW8MlpBlockStats;
use crate::qwen35::stack_lane::{
    Qwen35MetalW8LinearLayerStack3V1, Qwen35MetalW8LinearLayerStack3V1Stats, Stack3BuildFailure,
    Stack3Built, Stack3Counters,
};
use crate::qwen35::w8_pack::dimensions_of;

verus! {

/// Counters of the lane of stacks.
#[derive(Debug, PartialEq, Eq)]
pub struct Qwen35MetalW8LinearLayerStacksV1Stats {
    pub mechanism: &'static str,
    pub full_attention_mlp_mechanism: &'static str,
    pub stacks: Vec<Qwen35MetalW8LinearLayerStack3V1Stats>,
    pub full_attention_mlp_layers: Vec<Qwen35MetalW8MlpBlockStats>,
    pub terminal_error: bool,
}

/// The layer at a place of the stack that starts with `first`.
pub open spec fn stack_layer(first: usize, place: int) -> usize {
    if first + place > usize::MAX {
        usize::MAX
    } else {
        (first + place) as usize
    }
}

/// The three layers of the stack that starts with `first`.
pub fn stack_layers(first: usize) -> (layers: [usize; 3])
    ensures
        forall|place: int| 0 <= place < 3 ==> #[trigger] layers@[place] == stack_layer(
            first,
            place,
        ),
{
    [first, first.saturating_add(1), first.saturating_add(2)]
}

/// The layer is that of an earlier place: of one of the first `stacks` stacks,
/// or of the first `places` places of the next one.
pub open spec fn is_taken(firsts: Seq<usize>, stacks: int, places: int, layer: int) -> bool {
    exists|s: int, p: int|
        0 <= s < firsts.len() && 0 <= p < 3 && (s < stacks || (s == stacks && p < places))
            && #[trigger] stack_layer(firsts[s], p) == layer
}

/// The layers of a stack, as an error names them.
pub open spec fn names_stack(layer_indices: [usize; 3], first: usize) -> bool {
    forall|place: int|
        0 <= place < 3 ==> #[trigger] layer_indices@[place] == stack_layer(first, place)
}

/// The array of the layers of a stack.
pub open spec fn stack_array(first: usize) -> [usize; 3] {
    choose|layer_indices: [usize; 3]| names_stack(layer_indices, first)
}

proof fn the_stack_array(layer_indices: [usize; 3], first: usize)
    requires
        names_stack(layer_indices, first),
    ensures
        stack_array(first) == layer_indices,
{
    let other = stack_array(first);
    assert(names_stack(other, first));
    assert forall|place: int| 0 <= place < 3 implies other@[place] == layer_indices@[place] by {
        assert(other@[place] == stack_layer(first, place));
        assert(layer_indices@[place] == stack_layer(first, place));
    }
    assert(other =~= layer_indices);
}

/// What stops a layer from joining the stack that is being selected.
pub open spec fn place_fault(
    config: Qwen35TextConfig,
    firsts: Seq<usize>,
    stack: int,
    place: int,
) -> Fault {
    let layer = stack_layer(firsts[stack], place);
    if layer >= config.layer_types@.len() {
        Some(
            Error::StacksExceed {
                layer_indices: stack_array(firsts[stack]),
                layers: config.layer_types@.len() as usize,
            }.text(),
        )
    } else if config.layer_types@[layer as int] != Qwen35LayerType::LinearAttention {
        Some(Error::StacksNotLinear { layer_index: layer }.text())
    } else if is_taken(firsts, stack, place, layer as int) {
        Some(Error::StacksDuplicate { layer_index: layer }.text())
    } else {
        None
    }
}

/// The first stack from `from` on that is not there.
pub open spec fn stacks_fault(
    weights: Qwen35TextWeights,
    config: Qwen35TextConfig,
    firsts: Seq<usize>,
    built: Seq<Result<Stack3Built, Stack3BuildFailure>>,
    from: nat,
) -> Fault
    decreases firsts.len() - from,
{
    if from >= firsts.len() {
        None
    } else {
        place_fault(config, firsts, from as int, 0)
            .or_fault(place_fault(config, firsts, from as int, 1))
            .or_fault(place_fault(config, firsts, from as int, 2))
            .or_fault(
                Qwen35MetalW8LinearLayerStack3V1::fault(
                    weights,
                    config,
                    stack_array(firsts[from as int]),
                    GdnCoreProfileV1::LegacyFourDispatch,
                    built[from as int],
                ),
            )
            .or_fault(stacks_fault(weights, config, firsts, built, from + 1))
    }
}

/// The map leads from each layer to its place among the first `stacks` stacks
/// and the first `places` places of the next one.
spec fn maps(
    map: Seq<Option<(usize, usize)>>,
    firsts: Seq<usize>,
    stacks: int,
    places: int,
) -> bool {
    forall|l: int|
        0 <= l < map.len() ==> match #[trigger] map[l] {
            Some((s, p)) => {
                &&& p < 3
                &&& s < firsts.len()
                &&& s < stacks || (s == stacks && p < places)
                &&& stack_layer(firsts[s as int], p as int) == l
            },
            None => !is_taken(firsts, stacks, places, l),
        }
}

/// The selected stacks of three layers.
#[derive(Debug, PartialEq, Eq)]
pub struct Qwen35MetalW8LinearLayerStacksV1 {
    pub stacks: Vec<Qwen35MetalW8LinearLayerStack3V1>,
    pub layer_to_stack: Vec<Option<(usize, usize)>>,
    pub terminal_error: bool,
    pub owns_full_attention_mlp_blocks: bool,
}

/// A stack covers three consecutive linear layers of the model.
pub open spec fn is_stack_of(
    stack: Qwen35MetalW8LinearLayerStack3V1,
    config: Qwen35TextConfig,
) -> bool {
    let layers = stack.layer_indices@;
    &&& stack.is_owned()
    &&& stack.dimensions == dimensions_of(config)
    &&& layers[1] == layers[0] + 1
    &&& layers[2] == layers[0] + 2
    &&& layers[2] < config.layer_types@.len()
    &&& forall|p: int|
        0 <= p < 3 ==> config.layer_types@[#[trigger] layers[p] as int]
            == Qwen35LayerType::LinearAttention
}

impl Qwen35MetalW8LinearLayerStacksV1 {
    /// The stack and the place in it of a layer.
    pub open spec fn slot_of(self, layer_index: int) -> Option<(usize, usize)> {
        if 0 <= layer_index < self.layer_to_stack@.len() {
            self.layer_to_stack@[layer_index]
        } else {
            None
        }
    }

    /// Each stack covers three consecutive linear layers, and the map leads from
    /// each layer to its stack and back.
    pub open spec fn fits(self, config: Qwen35TextConfig) -> bool {
        &&& self.layer_to_stack@.len() == config.layer_types@.len()
        &&& forall|s: int|
            0 <= s < self.stacks@.len() ==> is_stack_of(#[trigger] self.stacks@[s], config)
        &&& forall|s: int, p: int|
            0 <= s < self.stacks@.len() && 0 <= p < 3 ==> self.slot_of(
                (#[trigger] self.stacks@[s].layer_indices@[p]) as int,
            ) == Some((s as usize, p as usize))
        &&& forall|l: int|
            0 <= l < self.layer_to_stack@.len() ==> match #[trigger] self.layer_to_stack@[l] {
                Some((s, p)) => {
                    &&& s < self.stacks@.len()
                    &&& p < 3
                    &&& self.stacks@[s as int].layer_indices@[p as int] == l
                },
                None => true,
            }
    }

    /// What stops the lane, when the accelerator answered with `built`.
    pub open spec fn fault(
        weights: Qwen35TextWeights,
        config: Qwen35TextConfig,
        firsts: Seq<usize>,
        built: Seq<Result<Stack3Built, Stack3BuildFailure>>,
    ) -> Fault {
        if weights.layers@.len() != config.layer_types@.len() || firsts.len() == 0 {
            Some(Error::StacksSelection.text())
        } else {
            stacks_fault(weights, config, firsts, built, 0)
        }
    }

    /// The stacks are those that the accelerator built, and nothing ran.
    pub open spec fn is_packed(
        self,
        config: Qwen35TextConfig,
        firsts: Seq<usize>,
        owns_full_attention_mlp_blocks: bool,
        chains: FunctionChains,
        built: Seq<Result<Stack3Built, Stack3BuildFailure>>,
    ) -> bool {
        &&& self.fits(config)
        &&& !self.terminal_error
        &&& self.owns_full_attention_mlp_blocks == owns_full_attention_mlp_blocks
        &&& self.stacks@.len() == firsts.len()
        &&& forall|s: int|
            0 <= s < self.stacks@.len() ==> built[s] is Ok && (#[trigger] self.stacks@[s]).is_built(
                config,
                stack_array(firsts[s]),
                GdnCoreProfileV1::LegacyFourDispatch,
                chains,
                built[s]->Ok_0,
            ) && self.stacks@[s].layer_indices@[0] == firsts[s]
    }

    /// Takes the stacks that start with the given layers. There is one answer
    /// of the accelerator for each stack.
    pub fn pack(
        weights: &Qwen35TextWeights,
        config: &Qwen35TextConfig,
        first_layer_indices: &[usize],
        owns_full_attention_mlp_blocks: bool,
        chains: FunctionChains,
        built: Vec<Result<Stack3Built, Stack3BuildFailure>>,
    ) -> (r: Result<Qwen35MetalW8LinearLayerStacksV1, Error>)
        requires
            config.widths_fit(),
            built@.len() >= first_layer_indices@.len(),
        ensures
            answers(
                r,
                Qwen35MetalW8LinearLayerStacksV1::fault(
                    *weights,
                    *config,
                    first_layer_indices@,
                    built@,
                ),
            ),
            r matches Ok(lane) ==> lane.is_packed(
                *config,
                first_layer_indices@,
                owns_full_attention_mlp_blocks,
                chains,
                built@,
            ),
    {
        let n: usize = config.layer_types.len();
        let total: usize = first_layer_indices.len();
        if weights.layers.len() != n || total == 0 {
            return Err(Error::StacksSelection);
        }
        let ghost firsts = first_layer_indices@;
        let ghost given = built@;
        let mut rest = built;
        let mut layer_to_stack: Vec<Option<(usize, usize)>> = Vec::with_capacity(n);
        let mut l: usize = 0;
        while l < n
            invariant
                l <= n,
                layer_to_stack@.len() == l,
                forall|j: int| 0 <= j < l ==> (#[trigger] layer_to_stack@[j]) is None,
            decreases n - l,
        {
            layer_to_stack.push(None);
            l = l + 1;
        }
        let mut stacks: Vec<Qwen35MetalW8LinearLayerStack3V1> = Vec::with_capacity(total);
        let mut k: usize = 0;
        while k < total
            invariant
                k <= total,
                total == firsts.len(),
                firsts == first_layer_indices@,
                given == built@,
                given.len() >= total,
                rest@ == given.skip(k as int),
                n == config.layer_types@.len(),
                n == weights.layers@.len(),
                config.widths_fit(),
                layer_to_stack@.len() == n,
                maps(layer_to_stack@, firsts, k as int, 0),
                stacks@.len() == k,
                stacks_fault(*weights, *config, firsts, given, 0) == stacks_fault(
                    *weights,
                    *config,
                    firsts,
                    given,
                    k as nat,
                ),
                forall|s: int, p: int|
                    0 <= s < k && 0 <= p < 3 ==> {
                        let layer = #[trigger] stack_layer(firsts[s], p);
                        &&& layer < n
                        &&& config.layer_types@[layer as int] == Qwen35LayerType::LinearAttention
                        &&& layer_to_stack@[layer as int] == Some((s as usize, p as usize))
                    },
                forall|s: int|
                    0 <= s < k ==> given[s] is Ok && (#[trigger] stacks@[s]).is_built(
                        *config,
                        stack_array(firsts[s]),
                        GdnCoreProfileV1::LegacyFourDispatch,
                        chains,
                        given[s]->Ok_0,
                    ) && names_stack(stacks@[s].layer_indices, firsts[s]),
            decreases total - k,
        {
            let first: usize = first_layer_indices[k];
            let layer_indices = stack_layers(first);
            proof {
                the_stack_array(layer_indices, first);
            }
            let mut place: usize = 0;
            while place < 3
                invariant
                    place <= 3,
                    k < total,
                    total == firsts.len(),
                    first == firsts[k as int],
                    n == config.layer_types@.len(),
                    layer_to_stack@.len() == n,
                    names_stack(layer_indices, first),
                    stack_array(first) == layer_indices,
                    maps(layer_to_stack@, firsts, k as int, place as int),
                    firsts == first_layer_indices@,
                    weights.layers@.len() == n,
                    given == built@,
                    stacks_fault(*weights, *config, firsts, given, 0) == stacks_fault(
                        *weights,
                        *config,
                        firsts,
                        given,
                        k as nat,
                    ),
                    0 < place ==> place_fault(*config, firsts, k as int, 0) is None,
                    1 < place ==> place_fault(*config, firsts, k as int, 1) is None,
                    2 < place ==> place_fault(*config, firsts, k as int, 2) is None,
                    forall|s: int, p: int|
                        0 <= p < 3 && (0 <= s < k || (s == k && p < place)) ==> {
                            let layer = #[trigger] stack_layer(firsts[s], p);
                            &&& layer < n
                            &&& config.layer_types@[layer as int]
                                == Qwen35LayerType::LinearAttention
                            &&& layer_to_stack@[layer as int] == Some((s as usize, p as usize))
                        },
                decreases 3 - place,
            {
                let layer_index: usize = layer_indices[place];
                proof {
                    assert(layer_index == stack_layer(first, place as int));
                }
                if layer_index >= n {
                    proof {
                        assert(place_fault(*config, firsts, k as int, place as int) is Some);
                    }
                    return Err(Error::StacksExceed { layer_indices, layers: n });
                }
                if config.layer_types[layer_index] != Qwen35LayerType::LinearAttention {
                    proof {
                        assert(place_fault(*config, firsts, k as int, place as int) is Some);
                    }
                    return Err(Error::StacksNotLinear { layer_index });
                }
                if layer_to_stack[layer_index].is_some() {
                    proof {
                        let (s, p) = layer_to_stack@[layer_index as int]->Some_0;
                        assert(stack_layer(firsts[s as int], p as int) == layer_index);
                        assert(is_taken(firsts, k as int, place as int, layer_index as int));
                        assert(place_fault(*config, firsts, k as int, place as int) is Some);
                    }
                    return Err(Error::StacksDuplicate { layer_index });
                }
                proof {
                    assert(layer_to_stack@[layer_index as int] is None);
                    assert(!is_taken(firsts, k as int, place as int, layer_index as int));
                    assert(place_fault(*config, firsts, k as int, place as int) is None);
                }
                let ghost before = layer_to_stack@;
                layer_to_stack[layer_index] = Some((k, place));
                proof {
                    let after = layer_to_stack@;
                    assert forall|l: int| 0 <= l < after.len() implies match #[trigger] after[l] {
                        Some((s, p)) => {
                            &&& p < 3
                            &&& s < firsts.len()
                            &&& s < k || (s == k && p < place + 1)
                            &&& stack_layer(firsts[s as int], p as int) == l
                        },
                        None => !is_taken(firsts, k as int, place + 1, l),
                    } by {
                        if l != layer_index {
                            assert(after[l] == before[l]);
                            if after[l] is None {
                                assert(!is_taken(firsts, k as int, place as int, l));
                                if is_taken(firsts, k as int, place + 1, l) {
                                    let (s, p) = choose|s: int, p: int|
                                        0 <= s < firsts.len() && 0 <= p < 3 && (s < k || (s == k
                                            && p < place + 1)) && #[trigger] stack_layer(
                                            firsts[s],
                                            p,
                                        ) == l;
                                    assert(s == k && p == place);
                                }
                            }
                        }
                    }
                    assert forall|s: int, p: int|
                        0 <= p < 3 && (0 <= s < k || (s == k && p < place + 1)) implies ({
                        let layer = #[trigger] stack_layer(firsts[s], p);
                        &&& layer < n
                        &&& config.layer_types@[layer as int] == Qwen35LayerType::LinearAttention
                        &&& after[layer as int] == Some((s as usize, p as usize))
                    }) by {
                        let layer = stack_layer(firsts[s], p);
                        if !(s == k && p == place) {
                            assert(before[layer as int] == Some((s as usize, p as usize)));
                        }
                    }
                }
                place = place + 1;
            }
            let answer = rest.remove(0);
            proof {
                assert(answer == given[k as int]);
                assert(rest@ =~= given.skip(k + 1));
            }
            match Qwen35MetalW8LinearLayerStack3V1::pack(
                weights,
                config,
                layer_indices,
                chains,
                answer,
            ) {
                Ok(stack) => stacks.push(stack),
                Err(e) => return Err(e),
            }
            proof {
                assert forall|l: int| 0 <= l < n implies match #[trigger] layer_to_stack@[l] {
                    Some((s, p)) => {
                        &&& p < 3
                        &&& s < firsts.len()
                        &&& s < k + 1 || (s == k + 1 && p < 0)
                        &&& stack_layer(firsts[s as int], p as int) == l
                    },
                    None => !is_taken(firsts, k + 1, 0, l),
                } by {
                    if layer_to_stack@[l] is None && is_taken(firsts, k + 1, 0, l) {
                        let (s, p) = choose|s: int, p: int|
                            0 <= s < firsts.len() && 0 <= p < 3 && (s < k + 1 || (s == k + 1 && p
                                < 0)) && #[trigger] stack_layer(firsts[s], p) == l;
                        assert(is_taken(firsts, k as int, 3, l));
                    }
                }
            }
            k = k + 1;
        }
        let lane = Qwen35MetalW8LinearLayerStacksV1 {
            stacks,
            layer_to_stack,
            terminal_error: false,
            owns_full_attention_mlp_blocks,
        };
        proof {
            assert forall|s: int| 0 <= s < lane.stacks@.len() implies is_stack_of(
                #[trigger] lane.stacks@[s],
                *config,
            ) && lane.stacks@[s].layer_indices@[0] == firsts[s] by {
                let layers = lane.stacks@[s].layer_indices@;
                assert(stack_layer(firsts[s], 0) < n);
                assert(stack_layer(firsts[s], 1) < n);
                assert(stack_layer(firsts[s], 2) < n);
                assert(layers[0] == stack_layer(firsts[s], 0));
                assert(layers[1] == stack_layer(firsts[s], 1));
                assert(layers[2] == stack_layer(firsts[s], 2));
            }
            assert forall|s: int, p: int|
                0 <= s < lane.stacks@.len() && 0 <= p < 3 implies lane.slot_of(
                (#[trigger] lane.stacks@[s].layer_indices@[p]) as int,
            ) == Some((s as usize, p as usize)) by {
                assert(lane.stacks@[s].layer_indices@[p] == stack_layer(firsts[s], p));
            }
            assert forall|l: int| 0 <= l < lane.layer_to_stack@.len() implies match #[trigger] lane.layer_to_stack@[l] {
                Some((s, p)) => {
                    &&& s < lane.stacks@.len()
                    &&& p < 3
                    &&& lane.stacks@[s as int].layer_indices@[p as int] == l
                },
                None => true,
            } by {
                if lane.layer_to_stack@[l] is Some {
                    let (s, p) = lane.layer_to_stack@[l]->Some_0;
                    assert(names_stack(lane.stacks@[s as int].layer_indices, firsts[s as int]));
                }
            }
        }
        Ok(lane)
    }

    /// The stack and the place in it of a layer.
    pub fn selected_slot(&self, layer_index: usize) -> (r: Option<(usize, usize)>)
        ensures
            r == self.slot_of(layer_index as int),
    {
        if layer_index < self.layer_to_stack.len() {
            self.layer_to_stack[layer_index]
        } else {
            None
        }
    }

    /// The stack that starts with a layer.
    pub open spec fn start_of(self, layer_index: int) -> Option<usize> {
        match self.slot_of(layer_index) {
            Some((stack, place)) if place == 0 => Some(stack),
            _ => None,
        }
    }

    /// The stack that starts with a layer.
    pub fn stack_start(&self, layer_index: usize) -> (r: Option<usize>)
        ensures
            r == self.start_of(layer_index as int),
    {
        match self.selected_slot(layer_index) {
            Some((stack, place)) => if place == 0 {
                Some(stack)
            } else {
                None
            },
            None => None,
        }
    }

    /// What is kept, but for the stack at `at`.
    pub open spec fn differs_at(self, at: int, after: Self) -> bool {
        &&& after.stacks@.len() == self.stacks@.len()
        &&& self.stacks@[at].same_build(after.stacks@[at])
        &&& after.stacks@ == self.stacks@.update(at, after.stacks@[at])
        &&& after.layer_to_stack == self.layer_to_stack
        &&& after.terminal_error == self.terminal_error
        &&& after.owns_full_attention_mlp_blocks == self.owns_full_attention_mlp_blocks
    }

    /// Takes the state that CPU prefill left for a layer. The result names the
    /// stack whose three states are there, if this was the last of them.
    pub fn seed_layer_after_cpu_prefill(&mut self, layer_index: usize, state: GdnDecodeState) -> (r:
        Result<Option<usize>, Error>)
        requires
            old(self).slot_of(layer_index as int) matches Some((s, _)) ==> s
                < old(self).stacks@.len(),
        ensures
            match old(self).slot_of(layer_index as int) {
                None => *final(self) == *old(self) && r == Err::<Option<usize>, Error>(
                    Error::StacksNotSelected { layer_index },
                ),
                Some((s, place)) => {
                    let before = old(self).stacks@[s as int].custody;
                    let after = final(self).stacks@[s as int].custody;
                    &&& old(self).differs_at(s as int, *final(self))
                    &&& final(self).stacks@[s as int].counters
                        == old(self).stacks@[s as int].counters
                    &&& before.seeds(place, state, after)
                    &&& r == if before.refuses(place) {
                        Err::<Option<usize>, Error>(before.owner.invalid_seed(place))
                    } else if after.is_complete() {
                        Ok(Some(s))
                    } else {
                        Ok(None)
                    }
                },
            },
    {
        match self.selected_slot(layer_index) {
            None => Err(Error::StacksNotSelected { layer_index }),
            Some((s, place)) => {
                let stack = &mut self.stacks[s];
                match stack.custody.seed_layer_after_cpu_prefill(place, state) {
                    Err(e) => Err(e),
                    Ok(complete) => Ok(
                        if complete {
                            Some(s)
                        } else {
                            None
                        },
                    ),
                }
            },
        }
    }

    /// The lane, or one of its stacks, met an error.
    pub open spec fn terminal(self) -> bool {
        self.terminal_error || exists|s: int|
            0 <= s < self.stacks@.len() && (#[trigger] self.stacks@[s]).custody.terminal_error
    }

    /// Whether the lane, or one of its stacks, met an error.
    pub fn is_terminal(&self) -> (r: bool)
        ensures
            r == self.terminal(),
    {
        if self.terminal_error {
            return true;
        }
        let mut s: usize = 0;
        while s < self.stacks.len()
            invariant
                s <= self.stacks@.len(),
                !self.terminal_error,
                forall|j: int| 0 <= j < s ==> !(#[trigger] self.stacks@[j]).custody.terminal_error,
            decreases self.stacks@.len() - s,
        {
            if self.stacks[s].custody.terminal_error {
                return true;
            }
            s = s + 1;
        }
        false
    }

    /// Makes the lane terminal.
    pub fn latch_terminal(&mut self)
        ensures
            *final(self) == (Qwen35MetalW8LinearLayerStacksV1 {
                terminal_error: true,
                ..*old(self)
            }),
    {
        self.terminal_error = true;
    }

    /// The counters of the lane.
    pub fn stats(&self, full_attention_mlp_layers: Vec<Qwen35MetalW8MlpBlockStats>) -> (r:
        Qwen35MetalW8LinearLayerStacksV1Stats)
        ensures
            r.mechanism == "metal-w8-linear-layer-stack3-v1",
            r.full_attention_mlp_mechanism == if self.owns_full_attention_mlp_blocks {
                "metal-w8-mlp-block-g64"
            } else {
                "none"
            },
            r.stacks@ == self.stacks@.map_values(
                |stack: Qwen35MetalW8LinearLayerStack3V1| stack.stats_of(),
            ),
            r.full_attention_mlp_layers@ == if self.owns_full_attention_mlp_blocks {
                full_attention_mlp_layers@
            } else {
                Seq::empty()
            },
            r.terminal_error == self.terminal(),
    {
        let mut stacks: Vec<Qwen35MetalW8LinearLayerStack3V1Stats> = Vec::new();
        let mut s: usize = 0;
        while s < self.stacks.len()
            invariant
                s <= self.stacks@.len(),
                stacks@.len() == s,
                forall|j: int| 0 <= j < s ==> #[trigger] stacks@[j] == self.stacks@[j].stats_of(),
            decreases self.stacks@.len() - s,
        {
            stacks.push(self.stacks[s].stats());
            s = s + 1;
        }
        proof {
            assert(stacks@ =~= self.stacks@.map_values(
                |stack: Qwen35MetalW8LinearLayerStack3V1| stack.stats_of(),
            ));
        }
        Qwen35MetalW8LinearLayerStacksV1Stats {
            mechanism: "metal-w8-linear-layer-stack3-v1",
            full_attention_mlp_mechanism: if self.owns_full_attention_mlp_blocks {
                "metal-w8-mlp-block-g64"
            } else {
                "none"
            },
            stacks,
            full_attention_mlp_layers: if self.owns_full_attention_mlp_blocks {
                full_attention_mlp_layers
            } else {
                Vec::new()
            },
            terminal_error: self.is_terminal(),
        }
    }

    /// The ledgers of the stacks, in their order.
    pub open spec fn ledgers_of(self) -> Seq<Qwen35MetalW8LinearLayerStack3BufferLedger> {
        self.stacks@.map_values(|stack: Qwen35MetalW8LinearLayerStack3V1| stack.ledger_of())
    }

    /// The ledgers of the stacks, in their order.
    pub fn buffer_ledgers(&self) -> (ledgers: Vec<Qwen35MetalW8LinearLayerStack3BufferLedger>)
        ensures
            ledgers@ == self.ledgers_of(),
    {
        let mut ledgers: Vec<Qwen35MetalW8LinearLayerStack3BufferLedger> = Vec::new();
        let mut s: usize = 0;
        while s < self.stacks.len()
            invariant
                s <= self.stacks@.len(),
                ledgers@.len() == s,
                forall|j: int| 0 <= j < s ==> #[trigger] ledgers@[j] == self.stacks@[j].ledger_of(),
            decreases self.stacks@.len() - s,
        {
            ledgers.push(self.stacks[s].buffer_ledger());
            s = s + 1;
        }
        proof {
            assert(ledgers@ =~= self.ledgers_of());
        }
        ledgers
    }

    /// The first stack from `from` on that the accelerator did not clear.
    pub open spec fn first_uncleared(
        outcomes: Seq<(Result<(), String>, Stack3Counters<LinearLayerStack3MetalStats>)>,
        stacks: nat,
        from: nat,
    ) -> nat
        decreases stacks - from,
    {
        if from >= stacks || outcomes[from as int].0 is Err {
            from
        } else {
            Qwen35MetalW8LinearLayerStacksV1::first_uncleared(outcomes, stacks, from + 1)
        }
    }

    /// What clearing the stacks one after the other leaves: the first failure
    /// ends the reset and leaves the lane terminal.
    pub open spec fn resets(
        self,
        outcomes: Seq<(Result<(), String>, Stack3Counters<LinearLayerStack3MetalStats>)>,
        after: Self,
    ) -> bool {
        let stop = Qwen35MetalW8LinearLayerStacksV1::first_uncleared(
            outcomes,
            self.stacks@.len(),
            0,
        );
        &&& after.stacks@.len() == self.stacks@.len()
        &&& after.layer_to_stack == self.layer_to_stack
        &&& after.owns_full_attention_mlp_blocks == self.owns_full_attention_mlp_blocks
        &&& after.terminal_error == (stop < self.stacks@.len())
        &&& forall|s: int|
            0 <= s < self.stacks@.len() ==> if s > stop {
                #[trigger] after.stacks@[s] == self.stacks@[s]
            } else {
                &&& self.stacks@[s].same_build(after.stacks@[s])
                &&& after.stacks@[s].counters == outcomes[s].1
                &&& self.stacks@[s].custody.resets(outcomes[s].0, after.stacks@[s].custody)
            }
    }

    /// Takes the answers of the accelerator to clearing the stacks one after the
    /// other, one for each stack.
    pub fn reset(
        &mut self,
        outcomes: Vec<(Result<(), String>, Stack3Counters<LinearLayerStack3MetalStats>)>,
    ) -> (r: Result<(), Error>)
        requires
            outcomes@.len() >= old(self).stacks@.len(),
        ensures
            old(self).resets(outcomes@, *final(self)),
            ({
                let stop = Qwen35MetalW8LinearLayerStacksV1::first_uncleared(
                    outcomes@,
                    old(self).stacks@.len(),
                    0,
                );
                if stop < old(self).stacks@.len() {
                    r == Err::<(), Error>(
                        old(self).stacks@[stop as int].custody.owner.reset(
                            outcomes@[stop as int].0->Err_0,
                        ),
                    )
                } else {
                    r is Ok
                }
            }),
    {
        let n: usize = self.stacks.len();
        let ghost before = *self;
        let ghost given = outcomes@;
        let ghost stop = Qwen35MetalW8LinearLayerStacksV1::first_uncleared(
            given,
            before.stacks@.len(),
            0,
        );
        let mut rest = outcomes;
        let mut i: usize = 0;
        while i < n
            invariant
                i <= n,
                n == before.stacks@.len(),
                before == *old(self),
                given == outcomes@,
                given.len() >= n,
                rest@ == given.skip(i as int),
                self.stacks@.len() == n,
                self.layer_to_stack == before.layer_to_stack,
                self.owns_full_attention_mlp_blocks == before.owns_full_attention_mlp_blocks,
                stop == Qwen35MetalW8LinearLayerStacksV1::first_uncleared(given, n as nat, 0),
                stop == Qwen35MetalW8LinearLayerStacksV1::first_uncleared(
                    given,
                    n as nat,
                    i as nat,
                ),
                i <= stop,
                forall|s: int| i <= s < n ==> #[trigger] self.stacks@[s] == before.stacks@[s],
                forall|s: int|
                    0 <= s < i ==> {
                        &&& before.stacks@[s].same_build(#[trigger] self.stacks@[s])
                        &&& self.stacks@[s].counters == given[s].1
                        &&& before.stacks@[s].custody.resets(given[s].0, self.stacks@[s].custody)
                    },
            decreases n - i,
        {
            let (outcome, counters) = rest.remove(0);
            proof {
                assert((outcome, counters) == given[i as int]);
                assert(rest@ =~= given.skip(i + 1));
                first_uncleared_is_later(given, n as nat, i as nat + 1);
            }
            let stack = &mut self.stacks[i];
            if let Err(e) = stack.reset(outcome, counters) {
                self.terminal_error = true;
                return Err(e);
            }
            i = i + 1;
        }
        self.terminal_error = false;
        Ok(())
    }
}

proof fn first_uncleared_is_later(
    outcomes: Seq<(Result<(), String>, Stack3Counters<LinearLayerStack3MetalStats>)>,
    stacks: nat,
    from: nat,
)
    ensures
        from <= Qwen35MetalW8LinearLayerStacksV1::first_uncleared(outcomes, stacks, from),
    decreases stacks - from,
{
    if from < stacks && !(outcomes[from as int].0 is Err) {
        first_uncleared_is_later(outcomes, stacks, from + 1);
    }
}

/// A layer belongs to one stack, at one place.
pub proof fn a_layer_belongs_to_one_stack(
    lane: Qwen35MetalW8LinearLayerStacksV1,
    config: Qwen35TextConfig,
    s: int,
    p: int,
    t: int,
    q: int,
)
    requires
        lane.fits(config),
        0 <= s < lane.stacks@.len(),
        0 <= t < lane.stacks@.len(),
        0 <= p < 3,
        0 <= q < 3,
        lane.stacks@[s].layer_indices@[p] == lane.stacks@[t].layer_indices@[q],
        lane.stacks@.len() <= usize::MAX,
    ensures
        s == t,
        p == q,
{
    let layer = lane.stacks@[s].layer_indices@[p] as int;
    assert(lane.slot_of(layer) == Some((s as usize, p as usize)));
    assert(lane.slot_of(lane.stacks@[t].layer_indices@[q] as int) == Some(
        (t as usize, q as usize),
    ));
}

} // verus!
