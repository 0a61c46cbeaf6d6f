//! Accelerated feed-forward blocks: which layers have one, when it may run,
//! and what a run leaves behind.

use vstd::prelude::*;

use crate::error::{answers, element_count_text, either, row_shape_text, Error, Fault};
use crate::qwen35::config::Qwen35TextConfig;
use crate::qwen35::ledger::Qwen35MetalW8MlpBlockBufferLedger;
use crate::qwen35::loader::Qwen35TextWeights;
use crate::qwen35::metal::MlpBlockBufferLedger;
use crate::qwen35::w8_pack::{
    check_gate_up, gate_up_fault, mlp_block_fault, pack_qwen35_w8_mlp_block, packed_mlp_fault,
};
use crate::tensor::{copy_dims, product_of_two, DType, Tensor};

verus! {

/// What stops one row of `columns` 32-bit floats from being handed over.
pub open spec fn row_fault(hidden: Tensor, columns: usize) -> Fault {
    if hidden.dims() != seq![1usize, columns] {
        Some(row_shape_text(columns as int, hidden.dims()))
    } else if hidden.element_type() != DType::F32 {
        Some(Error::NotF32 { dtype: hidden.element_type().name() }.text())
    } else {
        None
    }
}

/// The tensor is one row of `columns` elements.
pub fn is_row(hidden: &Tensor, columns: usize) -> (r: bool)
    ensures
        r == (hidden.dims() == seq![1usize, columns]),
{
    let expected: [usize; 2] = [1, columns];
    proof {
        assert(expected@ =~= seq![1usize, columns]);
    }
    hidden.has_shape(expected.as_slice())
}

/// Checks one row of `columns` 32-bit floats.
pub fn check_row(hidden: &Tensor, columns: usize) -> (r: Result<(), Error>)
    ensures
        answers(r, row_fault(*hidden, columns)),
{
    if !is_row(hidden, columns) {
        return Err(Error::RowShape { columns, got: copy_dims(hidden.shape().as_slice()) });
    }
    match hidden.as_f32() {
        Ok(_) => Ok(()),
        Err(e) => Err(e),
    }
}

/// An output has another number of elements than the row.
pub open spec fn output_fault(output: Seq<u32>, width: usize) -> Fault {
    if output.len() == width {
        None
    } else {
        Some(element_count_text(output.len() as int, seq![1usize, width]))
    }
}

/// Takes an output of the accelerator as one row.
pub fn tensor_from_owned_metal_output_row(width: usize, output: Vec<u32>) -> (r: Result<
    Tensor,
    Error,
>)
    ensures
        answers(r, output_fault(output@, width)),
        r matches Ok(tensor) ==> tensor.is_f32(seq![1usize, width], output@),
{
    let shape: Vec<usize> = vec![1, width];
    proof {
        assert(shape@ =~= seq![1usize, width]);
        product_of_two(1, width);
    }
    Tensor::from_f32(shape, output)
}

/// Counters of one feed-forward block.
#[derive(Clone, Copy, Debug, PartialEq, Eq, Structural)]
pub struct Qwen35MetalW8MlpBlockStats {
    pub layer_index: usize,
    pub decode_calls: usize,
    /// Input copy, one submission and wait, and output copy, as the host saw it.
    pub block_elapsed_ns: u128,
}

/// Counters of one stacked gate and up projection.
#[derive(Clone, Copy, Debug, PartialEq, Eq, Structural)]
pub struct Qwen35MetalW8BodyStats {
    pub layer_index: usize,
    pub decode_calls: usize,
    /// Input copy, submission, wait and output copy, as the host saw it.
    pub projection_elapsed_ns: u128,
}

/// Where the accelerator failed to build a feed-forward block, and why.
#[derive(Debug, PartialEq, Eq)]
pub enum MlpBuildFailure {
    Packing { cause: String },
    Construction { cause: String },
}

/// One accelerated feed-forward block.
#[derive(Clone, Copy, Debug, PartialEq, Eq)]
pub struct Qwen35MetalW8MlpBlockLayer {
    pub layer_index: usize,
    pub hidden_size: usize,
    pub ledger: MlpBlockBufferLedger,
    pub decode_calls: usize,
    pub block_elapsed_ns: u128,
}

impl Qwen35MetalW8MlpBlockLayer {
    /// What stops a block, when the accelerator answered with `answer`.
    pub open spec fn fault(
        weights: Qwen35TextWeights,
        config: Qwen35TextConfig,
        layer_index: usize,
        answer: Result<MlpBlockBufferLedger, MlpBuildFailure>,
    ) -> Fault {
        match answer {
            Err(MlpBuildFailure::Packing { cause }) => packed_mlp_fault(
                weights,
                config,
                layer_index,
                Some(cause),
            ),
            Err(MlpBuildFailure::Construction { cause }) => either(
                mlp_block_fault(weights, config, layer_index),
                Some(Error::MlpConstruction { layer_index, cause }.text()),
            ),
            Ok(_) => mlp_block_fault(weights, config, layer_index),
        }
    }

    /// A block that did not run yet.
    pub open spec fn fresh(
        layer_index: usize,
        hidden_size: usize,
        ledger: MlpBlockBufferLedger,
    ) -> Qwen35MetalW8MlpBlockLayer {
        Qwen35MetalW8MlpBlockLayer {
            layer_index,
            hidden_size,
            ledger,
            decode_calls: 0,
            block_elapsed_ns: 0,
        }
    }

    /// Takes a block that the accelerator was asked to build.
    pub fn pack(
        weights: &Qwen35TextWeights,
        config: &Qwen35TextConfig,
        layer_index: usize,
        answer: Result<MlpBlockBufferLedger, MlpBuildFailure>,
    ) -> (r: Result<Qwen35MetalW8MlpBlockLayer, Error>)
        ensures
            answers(
                r,
                Qwen35MetalW8MlpBlockLayer::fault(*weights, *config, layer_index, answer),
            ),
            r matches Ok(block) ==> answer matches Ok(ledger) && block
                == Qwen35MetalW8MlpBlockLayer::fresh(layer_index, config.hidden_size, ledger),
    {
        match answer {
            Err(MlpBuildFailure::Packing { cause }) => {
                match pack_qwen35_w8_mlp_block(weights, config, layer_index, None) {
                    Ok(_) => Err(Error::MlpPacking { layer_index, cause }),
                    Err(e) => Err(e),
                }
            },
            Err(MlpBuildFailure::Construction { cause }) => {
                match pack_qwen35_w8_mlp_block(weights, config, layer_index, None) {
                    Ok(_) => Err(Error::MlpConstruction { layer_index, cause }),
                    Err(e) => Err(e),
                }
            },
            Ok(ledger) => {
                match pack_qwen35_w8_mlp_block(weights, config, layer_index, None) {
                    Ok(_) => Ok(
                        Qwen35MetalW8MlpBlockLayer {
                            layer_index,
                            hidden_size: config.hidden_size,
                            ledger,
                            decode_calls: 0,
                            block_elapsed_ns: 0,
                        },
                    ),
                    Err(e) => Err(e),
                }
            },
        }
    }

    /// The counters.
    pub open spec fn stats_of(self) -> Qwen35MetalW8MlpBlockStats {
        Qwen35MetalW8MlpBlockStats {
            layer_index: self.layer_index,
            decode_calls: self.decode_calls,
            block_elapsed_ns: self.block_elapsed_ns,
        }
    }

    /// The counters.
    pub fn stats(&self) -> (stats: Qwen35MetalW8MlpBlockStats)
        ensures
            stats == self.stats_of(),
    {
        Qwen35MetalW8MlpBlockStats {
            layer_index: self.layer_index,
            decode_calls: self.decode_calls,
            block_elapsed_ns: self.block_elapsed_ns,
        }
    }

    /// What a run that returned `output` leaves: a failed or malformed run
    /// counts nothing.
    pub open spec fn after_run(self, output: Result<Vec<u32>, String>, elapsed_ns: u128) -> Self {
        match output {
            Ok(values) if values@.len() == self.hidden_size => Qwen35MetalW8MlpBlockLayer {
                decode_calls: self.decode_calls.saturating_add(1),
                block_elapsed_ns: self.block_elapsed_ns.saturating_add(elapsed_ns),
                ..self
            },
            _ => self,
        }
    }

    /// What is wrong with a run that returned `output`.
    pub open spec fn run_fault(self, output: Result<Vec<u32>, String>) -> Fault {
        match output {
            Err(cause) => Some(Error::MlpFailed { layer_index: self.layer_index, cause }.text()),
            Ok(values) => output_fault(values@, self.hidden_size),
        }
    }

    /// Takes what the accelerator returned for one row.
    pub fn finish(&mut self, output: Result<Vec<u32>, String>, elapsed_ns: u128) -> (r: Result<
        Tensor,
        Error,
    >)
        ensures
            *final(self) == old(self).after_run(output, elapsed_ns),
            answers(r, old(self).run_fault(output)),
            r matches Ok(tensor) ==> output is Ok && tensor.is_f32(
                seq![1usize, old(self).hidden_size],
                output->Ok_0@,
            ),
    {
        match output {
            Err(cause) => Err(Error::MlpFailed { layer_index: self.layer_index, cause }),
            Ok(values) => match tensor_from_owned_metal_output_row(self.hidden_size, values) {
                Err(e) => Err(e),
                Ok(tensor) => {
                    self.block_elapsed_ns = self.block_elapsed_ns.saturating_add(elapsed_ns);
                    self.decode_calls = self.decode_calls.saturating_add(1);
                    Ok(tensor)
                },
            },
        }
    }

    /// Forgets the counters.
    pub fn reset_stats(&mut self)
        ensures
            *final(self) == Qwen35MetalW8MlpBlockLayer::fresh(
                old(self).layer_index,
                old(self).hidden_size,
                old(self).ledger,
            ),
    {
        self.decode_calls = 0;
        self.block_elapsed_ns = 0;
    }
}

/// The two lanes that select single layers.
#[derive(Clone, Copy, Debug, PartialEq, Eq, Structural)]
pub enum Selection {
    Body,
    MlpBlock,
}

/// The fault of an empty selection.
pub open spec fn empty_fault(lane: Selection) -> Fault {
    match lane {
        Selection::Body => Some(Error::BodyEmpty.text()),
        Selection::MlpBlock => Some(Error::MlpEmpty.text()),
    }
}

/// The fault of a layer that does not exist.
pub open spec fn outside_fault(lane: Selection, layer_index: usize, layers: usize) -> Fault {
    match lane {
        Selection::Body => Some(Error::BodyOutside { layer_index, layers }.text()),
        Selection::MlpBlock => Some(Error::MlpOutside { layer_index, layers }.text()),
    }
}

/// The fault of a layer that is selected twice.
pub open spec fn duplicate_fault(lane: Selection, layer_index: usize) -> Fault {
    match lane {
        Selection::Body => Some(Error::BodyDuplicate { layer_index }.text()),
        Selection::MlpBlock => Some(Error::MlpDuplicate { layer_index }.text()),
    }
}

/// The first selected layer from `from` on that does not exist or was selected
/// before.
pub open spec fn selection_fault(
    lane: Selection,
    indices: Seq<usize>,
    layers: usize,
    from: nat,
) -> Fault
    decreases indices.len() - from,
{
    if from >= indices.len() {
        None
    } else if indices[from as int] >= layers {
        outside_fault(lane, indices[from as int], layers)
    } else if indices.take(from as int).contains(indices[from as int]) {
        duplicate_fault(lane, indices[from as int])
    } else {
        selection_fault(lane, indices, layers, from + 1)
    }
}

/// Marks the selected layers.
fn select(lane: Selection, indices: &[usize], layers: usize) -> (r: Result<Vec<bool>, Error>)
    ensures
        answers(
            r,
            if indices@.len() == 0 {
                empty_fault(lane)
            } else {
                selection_fault(lane, indices@, layers, 0)
            },
        ),
        r matches Ok(selected) ==> selected@.len() == layers && forall|i: int|
            0 <= i < layers ==> #[trigger] selected@[i] == indices@.contains(i as usize),
{
    if indices.len() == 0 {
        return Err(
            match lane {
                Selection::Body => Error::BodyEmpty,
                Selection::MlpBlock => Error::MlpEmpty,
            },
        );
    }
    let mut selected: Vec<bool> = Vec::with_capacity(layers);
    let mut n: usize = 0;
    while n < layers
        invariant
            n <= layers,
            selected@.len() == n,
            forall|i: int| 0 <= i < n ==> !(#[trigger] selected@[i]),
        decreases layers - n,
    {
        selected.push(false);
        n = n + 1;
    }
    let mut k: usize = 0;
    while k < indices.len()
        invariant
            k <= indices@.len(),
            selected@.len() == layers,
            selection_fault(lane, indices@, layers, 0) == selection_fault(
                lane,
                indices@,
                layers,
                k as nat,
            ),
            indices@.len() > 0,
            forall|i: int|
                0 <= i < layers ==> #[trigger] selected@[i] == indices@.take(k as int).contains(
                    i as usize,
                ),
        decreases indices@.len() - k,
    {
        let layer_index: usize = indices[k];
        if layer_index >= layers {
            return Err(
                match lane {
                    Selection::Body => Error::BodyOutside { layer_index, layers },
                    Selection::MlpBlock => Error::MlpOutside { layer_index, layers },
                },
            );
        }
        if selected[layer_index] {
            return Err(
                match lane {
                    Selection::Body => Error::BodyDuplicate { layer_index },
                    Selection::MlpBlock => Error::MlpDuplicate { layer_index },
                },
            );
        }
        selected[layer_index] = true;
        proof {
            assert forall|i: int| 0 <= i < layers implies #[trigger] selected@[i]
                == indices@.take(k + 1).contains(i as usize) by {
                crate::names::one_more_item(indices@, k as int, i as usize);
            }
        }
        k = k + 1;
    }
    proof {
        assert(indices@.take(k as int) =~= indices@);
    }
    Ok(selected)
}

/// The first selected layer from `from` on whose block is not there.
pub open spec fn mlp_blocks_fault(
    weights: Qwen35TextWeights,
    config: Qwen35TextConfig,
    indices: Seq<usize>,
    answers: Seq<Result<MlpBlockBufferLedger, MlpBuildFailure>>,
    from: nat,
) -> Fault
    decreases weights.layers@.len() - from,
{
    if from >= weights.layers@.len() {
        None
    } else if indices.contains(from as usize) {
        either(
            Qwen35MetalW8MlpBlockLayer::fault(
                weights,
                config,
                from as usize,
                answers[from as int],
            ),
            mlp_blocks_fault(weights, config, indices, answers, from + 1),
        )
    } else {
        mlp_blocks_fault(weights, config, indices, answers, from + 1)
    }
}

/// The entries that are there, in the order of the layers.
pub open spec fn present<T>(layers: Seq<Option<T>>) -> Seq<T>
    decreases layers.len(),
{
    if layers.len() == 0 {
        Seq::empty()
    } else {
        match layers.last() {
            Some(layer) => present(layers.drop_last()).push(layer),
            None => present(layers.drop_last()),
        }
    }
}

/// One more entry.
pub proof fn present_step<T>(layers: Seq<Option<T>>, i: int)
    requires
        0 <= i < layers.len(),
    ensures
        present(layers.take(i + 1)) == match layers[i] {
            Some(layer) => present(layers.take(i)).push(layer),
            None => present(layers.take(i)),
        },
{
    assert(layers.take(i + 1).drop_last() =~= layers.take(i));
}

/// The accelerated feed-forward blocks of a model, by layer.
#[derive(Debug, PartialEq, Eq)]
pub struct Qwen35MetalW8MlpBlocks {
    pub layers: Vec<Option<Qwen35MetalW8MlpBlockLayer>>,
}

impl Qwen35MetalW8MlpBlocks {
    /// Takes the blocks of the selected layers. There is one answer of the
    /// accelerator for each layer; those of other layers are not read.
    pub fn pack(
        weights: &Qwen35TextWeights,
        config: &Qwen35TextConfig,
        layer_indices: &[usize],
        built: Vec<Result<MlpBlockBufferLedger, MlpBuildFailure>>,
    ) -> (r: Result<Qwen35MetalW8MlpBlocks, Error>)
        requires
            built@.len() >= weights.layers@.len(),
        ensures
            answers(
                r,
                if layer_indices@.len() == 0 {
                    empty_fault(Selection::MlpBlock)
                } else {
                    either(
                        selection_fault(
                            Selection::MlpBlock,
                            layer_indices@,
                            weights.layers@.len() as usize,
                            0,
                        ),
                        mlp_blocks_fault(*weights, *config, layer_indices@, built@, 0),
                    )
                },
            ),
            r matches Ok(blocks) ==> {
                &&& blocks.layers@.len() == weights.layers@.len()
                &&& forall|i: int|
                    0 <= i < blocks.layers@.len() ==> #[trigger] blocks.layers@[i]
                        == if layer_indices@.contains(i as usize) && built@[i] is Ok {
                        Some(
                            Qwen35MetalW8MlpBlockLayer::fresh(
                                i as usize,
                                config.hidden_size,
                                built@[i]->Ok_0,
                            ),
                        )
                    } else {
                        None
                    }
                &&& forall|i: int|
                    0 <= i < blocks.layers@.len() ==> (#[trigger] blocks.layers@[i] is Some)
                        == layer_indices@.contains(i as usize)
            },
    {
        let n: usize = weights.layers.len();
        let selected = match select(Selection::MlpBlock, layer_indices, n) {
            Ok(selected) => selected,
            Err(e) => return Err(e),
        };
        let ghost given = built@;
        let ghost indices = layer_indices@;
        let mut rest = built;
        let mut layers: Vec<Option<Qwen35MetalW8MlpBlockLayer>> = Vec::with_capacity(n);
        let mut i: usize = 0;
        while i < n
            invariant
                i <= n,
                n == weights.layers@.len(),
                selected@.len() == n,
                given.len() >= n,
                given == built@,
                rest@ == given.skip(i as int),
                indices == layer_indices@,
                forall|j: int|
                    0 <= j < n ==> #[trigger] selected@[j] == indices.contains(j as usize),
                mlp_blocks_fault(*weights, *config, indices, given, 0) == mlp_blocks_fault(
                    *weights,
                    *config,
                    indices,
                    given,
                    i as nat,
                ),
                selection_fault(Selection::MlpBlock, indices, n, 0) is None,
                indices.len() > 0,
                layers@.len() == i,
                forall|j: int|
                    0 <= j < i ==> #[trigger] layers@[j] == if indices.contains(j as usize)
                        && given[j] is Ok {
                        Some(
                            Qwen35MetalW8MlpBlockLayer::fresh(
                                j as usize,
                                config.hidden_size,
                                given[j]->Ok_0,
                            ),
                        )
                    } else {
                        None
                    },
                forall|j: int|
                    0 <= j < i ==> (#[trigger] layers@[j] is Some) == indices.contains(j as usize),
            decreases n - i,
        {
            let answer = rest.remove(0);
            proof {
                assert(answer == given[i as int]);
                assert(rest@ =~= given.skip(i + 1));
                assert(selected@[i as int] == indices.contains(i));
            }
            if selected[i] {
                match Qwen35MetalW8MlpBlockLayer::pack(weights, config, i, answer) {
                    Ok(block) => layers.push(Some(block)),
                    Err(e) => return Err(e),
                }
            } else {
                layers.push(None);
            }
            i = i + 1;
        }
        Ok(Qwen35MetalW8MlpBlocks { layers })
    }

    /// The block of a layer.
    pub open spec fn block_of(self, layer_index: int) -> Option<Qwen35MetalW8MlpBlockLayer> {
        if 0 <= layer_index < self.layers@.len() {
            self.layers@[layer_index]
        } else {
            None
        }
    }

    /// The block of a layer.
    pub fn layer(&self, layer_index: usize) -> (r: Option<Qwen35MetalW8MlpBlockLayer>)
        ensures
            r == self.block_of(layer_index as int),
    {
        if layer_index < self.layers.len() {
            self.layers[layer_index]
        } else {
            None
        }
    }

    /// Puts a block that has run back in its place.
    pub fn layer_mut(&mut self, layer_index: usize, block: Qwen35MetalW8MlpBlockLayer)
        requires
            old(self).block_of(layer_index as int) is Some,
        ensures
            final(self).layers@ == old(self).layers@.update(layer_index as int, Some(block)),
    {
        self.layers[layer_index] = Some(block);
    }

    /// The counters of the blocks, in the order of the layers.
    pub open spec fn stats_of(self) -> Seq<Qwen35MetalW8MlpBlockStats> {
        present(self.layers@).map_values(|block: Qwen35MetalW8MlpBlockLayer| block.stats_of())
    }

    /// The counters of the blocks, in the order of the layers.
    pub fn stats(&self) -> (stats: Vec<Qwen35MetalW8MlpBlockStats>)
        ensures
            stats@ == self.stats_of(),
    {
        let mut stats: Vec<Qwen35MetalW8MlpBlockStats> = Vec::new();
        let mut i: usize = 0;
        let ghost view = |block: Qwen35MetalW8MlpBlockLayer| block.stats_of();
        proof {
            assert(self.layers@.take(0) =~= Seq::empty());
            assert(stats@ =~= present(self.layers@.take(0)).map_values(view));
        }
        while i < self.layers.len()
            invariant
                i <= self.layers@.len(),
                view == (|block: Qwen35MetalW8MlpBlockLayer| block.stats_of()),
                stats@ == present(self.layers@.take(i as int)).map_values(view),
            decreases self.layers@.len() - i,
        {
            proof {
                present_step(self.layers@, i as int);
            }
            if let Some(block) = &self.layers[i] {
                stats.push(block.stats());
            }
            i = i + 1;
            proof {
                assert(stats@ =~= present(self.layers@.take(i as int)).map_values(view));
            }
        }
        proof {
            assert(self.layers@.take(i as int) =~= self.layers@);
        }
        stats
    }

    /// The ledgers of the blocks, in the order of the layers.
    pub open spec fn ledgers_of(self) -> Seq<Qwen35MetalW8MlpBlockBufferLedger> {
        present(self.layers@).map_values(
            |block: Qwen35MetalW8MlpBlockLayer|
                Qwen35MetalW8MlpBlockBufferLedger {
                    layer_index: block.layer_index,
                    ledger: block.ledger,
                },
        )
    }

    /// The ledgers of the blocks, in the order of the layers.
    pub fn buffer_ledgers(&self) -> (ledgers: Vec<Qwen35MetalW8MlpBlockBufferLedger>)
        ensures
            ledgers@ == self.ledgers_of(),
    {
        let mut ledgers: Vec<Qwen35MetalW8MlpBlockBufferLedger> = Vec::new();
        let mut i: usize = 0;
        let ghost view = |block: Qwen35MetalW8MlpBlockLayer|
            Qwen35MetalW8MlpBlockBufferLedger {
                layer_index: block.layer_index,
                ledger: block.ledger,
            };
        proof {
            assert(self.layers@.take(0) =~= Seq::empty());
            assert(ledgers@ =~= present(self.layers@.take(0)).map_values(view));
        }
        while i < self.layers.len()
            invariant
                i <= self.layers@.len(),
                view == (|block: Qwen35MetalW8MlpBlockLayer|
                    Qwen35MetalW8MlpBlockBufferLedger {
                        layer_index: block.layer_index,
                        ledger: block.ledger,
                    }),
                ledgers@ == present(self.layers@.take(i as int)).map_values(view),
            decreases self.layers@.len() - i,
        {
            proof {
                present_step(self.layers@, i as int);
            }
            if let Some(block) = &self.layers[i] {
                ledgers.push(
                    Qwen35MetalW8MlpBlockBufferLedger {
                        layer_index: block.layer_index,
                        ledger: block.ledger,
                    },
                );
            }
            i = i + 1;
            proof {
                assert(ledgers@ =~= present(self.layers@.take(i as int)).map_values(view));
            }
        }
        proof {
            assert(self.layers@.take(i as int) =~= self.layers@);
        }
        ledgers
    }

    /// A block with its counters forgotten.
    pub open spec fn forgotten(block: Option<Qwen35MetalW8MlpBlockLayer>) -> Option<
        Qwen35MetalW8MlpBlockLayer,
    > {
        match block {
            Some(b) => Some(
                Qwen35MetalW8MlpBlockLayer::fresh(b.layer_index, b.hidden_size, b.ledger),
            ),
            None => None,
        }
    }

    /// Forgets the counters of all blocks.
    pub fn reset_stats(&mut self)
        ensures
            final(self).layers@ == old(self).layers@.map_values(
                |block: Option<Qwen35MetalW8MlpBlockLayer>|
                    Qwen35MetalW8MlpBlocks::forgotten(block),
            ),
    {
        let n: usize = self.layers.len();
        let ghost before = self.layers@;
        let mut i: usize = 0;
        while i < n
            invariant
                i <= n,
                n == self.layers@.len(),
                n == before.len(),
                forall|j: int|
                    0 <= j < i ==> #[trigger] self.layers@[j] == Qwen35MetalW8MlpBlocks::forgotten(
                        before[j],
                    ),
                forall|j: int| i <= j < n ==> #[trigger] self.layers@[j] == before[j],
            decreases n - i,
        {
            if let Some(block) = self.layers[i] {
                let mut block = block;
                block.reset_stats();
                self.layers[i] = Some(block);
            }
            i = i + 1;
        }
        proof {
            assert(self.layers@ =~= before.map_values(
                |block: Option<Qwen35MetalW8MlpBlockLayer>|
                    Qwen35MetalW8MlpBlocks::forgotten(block),
            ));
        }
    }
}

/// One accelerated stacked gate and up projection.
#[derive(Clone, Copy, Debug, PartialEq, Eq, Structural)]
pub struct Qwen35MetalW8BodyLayer {
    pub layer_index: usize,
    pub columns: usize,
    pub decode_calls: usize,
    pub projection_elapsed_ns: u128,
}

impl Qwen35MetalW8BodyLayer {
    /// What stops a projection, when the accelerator answered with `answer`.
    pub open spec fn fault(
        weights: Qwen35TextWeights,
        config: Qwen35TextConfig,
        layer_index: usize,
        answer: Result<(), String>,
    ) -> Fault {
        let packing = match answer {
            Err(cause) => Some(Error::BodyPacking { layer_index, cause }.text()),
            Ok(_) => None,
        };
        either(gate_up_fault(weights, config, layer_index), packing)
    }

    /// A projection that did not run yet.
    pub open spec fn fresh(layer_index: usize, columns: usize) -> Qwen35MetalW8BodyLayer {
        Qwen35MetalW8BodyLayer { layer_index, columns, decode_calls: 0, projection_elapsed_ns: 0 }
    }

    /// Takes a projection that the accelerator was asked to build.
    pub fn pack(
        weights: &Qwen35TextWeights,
        config: &Qwen35TextConfig,
        layer_index: usize,
        answer: Result<(), String>,
    ) -> (r: Result<Qwen35MetalW8BodyLayer, Error>)
        ensures
            answers(r, Qwen35MetalW8BodyLayer::fault(*weights, *config, layer_index, answer)),
            r matches Ok(layer) ==> layer == Qwen35MetalW8BodyLayer::fresh(
                layer_index,
                config.hidden_size,
            ),
    {
        if let Err(e) = check_gate_up(weights, config, layer_index) {
            return Err(e);
        }
        match answer {
            Err(cause) => Err(Error::BodyPacking { layer_index, cause }),
            Ok(_) => Ok(
                Qwen35MetalW8BodyLayer {
                    layer_index,
                    columns: config.hidden_size,
                    decode_calls: 0,
                    projection_elapsed_ns: 0,
                },
            ),
        }
    }

    /// The counters.
    pub open spec fn stats_of(self) -> Qwen35MetalW8BodyStats {
        Qwen35MetalW8BodyStats {
            layer_index: self.layer_index,
            decode_calls: self.decode_calls,
            projection_elapsed_ns: self.projection_elapsed_ns,
        }
    }

    /// The counters.
    pub fn stats(&self) -> (stats: Qwen35MetalW8BodyStats)
        ensures
            stats == self.stats_of(),
    {
        Qwen35MetalW8BodyStats {
            layer_index: self.layer_index,
            decode_calls: self.decode_calls,
            projection_elapsed_ns: self.projection_elapsed_ns,
        }
    }

    /// The output of the stacked projection has two halves.
    pub open spec fn halves(values: Seq<u32>) -> bool {
        values.len() > 0 && values.len() % 2 == 0
    }

    /// What a run that returned `output` leaves. A failed run counts nothing; a
    /// malformed one counts its time.
    pub open spec fn after_run(self, output: Result<Vec<u32>, String>, elapsed_ns: u128) -> Self {
        match output {
            Ok(values) => Qwen35MetalW8BodyLayer {
                decode_calls: if Qwen35MetalW8BodyLayer::halves(values@) {
                    self.decode_calls.saturating_add(1)
                } else {
                    self.decode_calls
                },
                projection_elapsed_ns: self.projection_elapsed_ns.saturating_add(elapsed_ns),
                ..self
            },
            Err(_) => self,
        }
    }

    /// What is wrong with a run that returned `output`.
    pub open spec fn run_fault(self, output: Result<Vec<u32>, String>) -> Fault {
        match output {
            Err(cause) => Some(Error::BodyFailed { layer_index: self.layer_index, cause }.text()),
            Ok(values) => if Qwen35MetalW8BodyLayer::halves(values@) {
                None
            } else {
                Some(
                    Error::BodyWidth {
                        layer_index: self.layer_index,
                        width: values@.len() as usize,
                    }.text(),
                )
            },
        }
    }

    /// Takes what the accelerator returned for one row, as gate and up rows.
    pub fn finish(&mut self, output: Result<Vec<u32>, String>, elapsed_ns: u128) -> (r: Result<
        (Tensor, Tensor),
        Error,
    >)
        ensures
            *final(self) == old(self).after_run(output, elapsed_ns),
            answers(r, old(self).run_fault(output)),
            r matches Ok(pair) ==> {
                let values = output->Ok_0@;
                let half = values.len() as int / 2;
                &&& output is Ok
                &&& pair.0.is_f32(seq![1usize, half as usize], values.take(half))
                &&& pair.1.is_f32(seq![1usize, half as usize], values.skip(half))
            },
    {
        let values = match output {
            Err(cause) => return Err(Error::BodyFailed { layer_index: self.layer_index, cause }),
            Ok(values) => values,
        };
        let ghost all = values@;
        self.projection_elapsed_ns = self.projection_elapsed_ns.saturating_add(elapsed_ns);
        let width: usize = values.len();
        let half: usize = width / 2;
        if half == 0 || width % 2 != 0 {
            return Err(Error::BodyWidth { layer_index: self.layer_index, width });
        }
        self.decode_calls = self.decode_calls.saturating_add(1);
        let mut first = values;
        let second = first.split_off(half);
        proof {
            assert(first@ =~= all.take(half as int));
            assert(second@ =~= all.skip(half as int));
        }
        let gate = match tensor_from_owned_metal_output_row(half, first) {
            Ok(gate) => gate,
            Err(e) => return Err(e),
        };
        let up = match tensor_from_owned_metal_output_row(half, second) {
            Ok(up) => up,
            Err(e) => return Err(e),
        };
        Ok((gate, up))
    }
}

/// The first selected layer from `from` on whose projection is not there.
pub open spec fn body_layers_fault(
    weights: Qwen35TextWeights,
    config: Qwen35TextConfig,
    indices: Seq<usize>,
    answers: Seq<Result<(), String>>,
    from: nat,
) -> Fault
    decreases weights.layers@.len() - from,
{
    if from >= weights.layers@.len() {
        None
    } else if indices.contains(from as usize) {
        either(
            Qwen35MetalW8BodyLayer::fault(weights, config, from as usize, answers[from as int]),
            body_layers_fault(weights, config, indices, answers, from + 1),
        )
    } else {
        body_layers_fault(weights, config, indices, answers, from + 1)
    }
}

/// The accelerated gate and up projections of a model, by layer.
#[derive(Debug, PartialEq, Eq)]
pub struct Qwen35MetalW8Body {
    pub layers: Vec<Option<Qwen35MetalW8BodyLayer>>,
}

impl Qwen35MetalW8Body {
    /// Takes the projections of the selected layers. There is one answer of the
    /// accelerator for each layer; those of other layers are not read.
    pub fn pack(
        weights: &Qwen35TextWeights,
        config: &Qwen35TextConfig,
        layer_indices: &[usize],
        built: Vec<Result<(), String>>,
    ) -> (r: Result<Qwen35MetalW8Body, Error>)
        requires
            built@.len() >= weights.layers@.len(),
        ensures
            answers(
                r,
                if layer_indices@.len() == 0 {
                    empty_fault(Selection::Body)
                } else {
                    either(
                        selection_fault(
                            Selection::Body,
                            layer_indices@,
                            weights.layers@.len() as usize,
                            0,
                        ),
                        body_layers_fault(*weights, *config, layer_indices@, built@, 0),
                    )
                },
            ),
            r matches Ok(body) ==> {
                &&& body.layers@.len() == weights.layers@.len()
                &&& forall|i: int|
                    0 <= i < body.layers@.len() ==> #[trigger] body.layers@[i]
                        == if layer_indices@.contains(i as usize) {
                        Some(Qwen35MetalW8BodyLayer::fresh(i as usize, config.hidden_size))
                    } else {
                        None
                    }
            },
    {
        let n: usize = weights.layers.len();
        let selected = match select(Selection::Body, layer_indices, n) {
            Ok(selected) => selected,
            Err(e) => return Err(e),
        };
        let ghost given = built@;
        let ghost indices = layer_indices@;
        let mut rest = built;
        let mut layers: Vec<Option<Qwen35MetalW8BodyLayer>> = Vec::with_capacity(n);
        let mut i: usize = 0;
        while i < n
            invariant
                i <= n,
                n == weights.layers@.len(),
                selected@.len() == n,
                given.len() >= n,
                given == built@,
                rest@ == given.skip(i as int),
                indices == layer_indices@,
                forall|j: int|
                    0 <= j < n ==> #[trigger] selected@[j] == indices.contains(j as usize),
                body_layers_fault(*weights, *config, indices, given, 0) == body_layers_fault(
                    *weights,
                    *config,
                    indices,
                    given,
                    i as nat,
                ),
                selection_fault(Selection::Body, indices, n, 0) is None,
                indices.len() > 0,
                layers@.len() == i,
                forall|j: int|
                    0 <= j < i ==> #[trigger] layers@[j] == if indices.contains(j as usize) {
                        Some(Qwen35MetalW8BodyLayer::fresh(j as usize, config.hidden_size))
                    } else {
                        None
                    },
            decreases n - i,
        {
            let answer = rest.remove(0);
            proof {
                assert(answer == given[i as int]);
                assert(rest@ =~= given.skip(i + 1));
                assert(selected@[i as int] == indices.contains(i));
            }
            if selected[i] {
                match Qwen35MetalW8BodyLayer::pack(weights, config, i, answer) {
                    Ok(layer) => layers.push(Some(layer)),
                    Err(e) => return Err(e),
                }
            } else {
                layers.push(None);
            }
            i = i + 1;
        }
        Ok(Qwen35MetalW8Body { layers })
    }

    /// The projection of a layer.
    pub open spec fn layer_of(self, layer_index: int) -> Option<Qwen35MetalW8BodyLayer> {
        if 0 <= layer_index < self.layers@.len() {
            self.layers@[layer_index]
        } else {
            None
        }
    }

    /// The projection of a layer.
    pub fn layer(&self, layer_index: usize) -> (r: Option<Qwen35MetalW8BodyLayer>)
        ensures
            r == self.layer_of(layer_index as int),
    {
        if layer_index < self.layers.len() {
            self.layers[layer_index]
        } else {
            None
        }
    }

    /// Puts a projection that has run back in its place.
    pub fn layer_mut(&mut self, layer_index: usize, layer: Qwen35MetalW8BodyLayer)
        requires
            old(self).layer_of(layer_index as int) is Some,
        ensures
            final(self).layers@ == old(self).layers@.update(layer_index as int, Some(layer)),
    {
        self.layers[layer_index] = Some(layer);
    }

    /// The counters of the projections, in the order of the layers.
    pub open spec fn stats_of(self) -> Seq<Qwen35MetalW8BodyStats> {
        present(self.layers@).map_values(|layer: Qwen35MetalW8BodyLayer| layer.stats_of())
    }

    /// The counters of the projections, in the order of the layers.
    pub fn stats(&self) -> (stats: Vec<Qwen35MetalW8BodyStats>)
        ensures
            stats@ == self.stats_of(),
    {
        let mut stats: Vec<Qwen35MetalW8BodyStats> = Vec::new();
        let mut i: usize = 0;
        let ghost view = |layer: Qwen35MetalW8BodyLayer| layer.stats_of();
        proof {
            assert(self.layers@.take(0) =~= Seq::empty());
            assert(stats@ =~= present(self.layers@.take(0)).map_values(view));
        }
        while i < self.layers.len()
            invariant
                i <= self.layers@.len(),
                view == (|layer: Qwen35MetalW8BodyLayer| layer.stats_of()),
                stats@ == present(self.layers@.take(i as int)).map_values(view),
            decreases self.layers@.len() - i,
        {
            proof {
                present_step(self.layers@, i as int);
            }
            if let Some(layer) = &self.layers[i] {
                stats.push(layer.stats());
            }
            i = i + 1;
            proof {
                assert(stats@ =~= present(self.layers@.take(i as int)).map_values(view));
            }
        }
        proof {
            assert(self.layers@.take(i as int) =~= self.layers@);
        }
        stats
    }
}

} // verus!
