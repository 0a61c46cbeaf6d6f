//! What a stream gives does not depend on how its tokens are cut into forwards.
//!
//! The kernels are outside of the library. Here they are any functions that take
//! the rows of an activation one after the other: the norms, the projections and
//! the feed-forward blocks look at one row alone, and attention carries the
//! memory of its layer from row to row. The laws speak of forwards whose steps
//! were answered by such kernels. Kernels that add up in another order for a
//! block of rows than for a single one are such kernels up to rounding.

use vstd::prelude::*;

use crate::error::Error;
use crate::qwen35::config::Qwen35LayerType;
use crate::qwen35::forward::{ForwardRun, Frame, Work};
use crate::qwen35::head::{last_row, last_row_fault};
use crate::qwen35::model::GeneralQwen35;
use crate::qwen35::state::{full_layers_before, Qwen35LinearState};
use crate::qwen35::steps::is_row_of;
use crate::tensor::{DType, Device, Tensor};

verus! {

/// One row of 32-bit float patterns.
pub type Row = Seq<u32>;

/// The rows of a matrix of a width.
pub open spec fn rows_of(matrix: Tensor, width: usize) -> Seq<Row> {
    Seq::new(
        matrix.dims()[0] as nat,
        |i: int| matrix.data().subrange(i * width, (i + 1) * width),
    )
}

/// A matrix of 32-bit floats on the CPU holds these rows and nothing else.
pub open spec fn shows(matrix: Tensor, width: usize, rows: Seq<Row>) -> bool {
    &&& matrix.dims() == seq![rows.len() as usize, width]
    &&& matrix.element_type() == DType::F32
    &&& matrix.place() == Device::Cpu
    &&& matrix.data().len() == rows.len() * width
    &&& rows_of(matrix, width) == rows
}

/// What a tensor holds: its sizes and its elements.
pub open spec fn contents(tensor: Option<Tensor>) -> Option<(Seq<usize>, Seq<u32>)> {
    match tensor {
        Some(tensor) => Some((tensor.dims(), tensor.data())),
        None => None,
    }
}

/// What a linear-attention layer remembers: its convolution histories and its
/// recurrent matrix.
pub struct LinearMemory {
    pub query_conv: Option<(Seq<usize>, Seq<u32>)>,
    pub key_conv: Option<(Seq<usize>, Seq<u32>)>,
    pub value_conv: Option<(Seq<usize>, Seq<u32>)>,
    pub recurrent: Option<(Seq<usize>, Seq<u32>)>,
}

/// What a state of a linear-attention layer holds.
pub open spec fn held(state: Qwen35LinearState) -> LinearMemory {
    LinearMemory {
        query_conv: contents(state.query_conv),
        key_conv: contents(state.key_conv),
        value_conv: contents(state.value_conv),
        recurrent: contents(state.recurrent),
    }
}

/// The key and the value of each token that a full-attention layer has seen.
pub type Cache = Seq<(Row, Row)>;

/// What a layer remembers of the tokens before.
pub enum Memory {
    Linear(LinearMemory),
    Full(Cache),
}

/// The kernels, row by row. The first argument of most is the layer; full
/// attention takes the position of the row too.
pub struct Kernels {
    pub embed: spec_fn(u32) -> Row,
    pub input_norm: spec_fn(int, Row) -> Row,
    pub linear: spec_fn(int, LinearMemory, Row) -> (Row, LinearMemory),
    pub full: spec_fn(int, int, Cache, Row) -> (Row, Cache),
    pub add: spec_fn(Row, Row) -> Row,
    pub post_norm: spec_fn(int, Row) -> Row,
    pub mlp: spec_fn(int, Row) -> Row,
    pub project: spec_fn(Row) -> Row,
}

impl Kernels {
    /// The rows of the tokens.
    pub open spec fn embedded(self, tokens: Seq<u32>) -> Seq<Row> {
        Seq::new(tokens.len(), |i: int| (self.embed)(tokens[i]))
    }

    /// The rows under the input norm of a layer.
    pub open spec fn normed(self, layer: int, rows: Seq<Row>) -> Seq<Row> {
        Seq::new(rows.len(), |i: int| (self.input_norm)(layer, rows[i]))
    }

    /// Attention of a layer on one row, and what the layer then remembers.
    pub open spec fn attend(self, layer: int, position: int, memory: Memory, row: Row) -> (
        Row,
        Memory,
    ) {
        match memory {
            Memory::Linear(before) => {
                let (out, after) = (self.linear)(layer, before, row);
                (out, Memory::Linear(after))
            },
            Memory::Full(before) => {
                let (out, after) = (self.full)(layer, position, before, row);
                (out, Memory::Full(after))
            },
        }
    }

    /// Attention of a layer on rows from a position on, one after the other.
    pub open spec fn attended(
        self,
        layer: int,
        position: int,
        memory: Memory,
        rows: Seq<Row>,
    ) -> (Seq<Row>, Memory)
        decreases rows.len(),
    {
        if rows.len() == 0 {
            (Seq::empty(), memory)
        } else {
            let (before, between) = self.attended(layer, position, memory, rows.drop_last());
            let (out, after) = self.attend(
                layer,
                position + rows.len() - 1,
                between,
                rows.last(),
            );
            (before.push(out), after)
        }
    }

    /// The sums of rows.
    pub open spec fn sums(self, left: Seq<Row>, right: Seq<Row>) -> Seq<Row> {
        Seq::new(left.len(), |i: int| (self.add)(left[i], right[i]))
    }

    /// The rows under the post-attention norm of a layer.
    pub open spec fn post_normed(self, layer: int, rows: Seq<Row>) -> Seq<Row> {
        Seq::new(rows.len(), |i: int| (self.post_norm)(layer, rows[i]))
    }

    /// The rows behind the feed-forward block of a layer.
    pub open spec fn fed(self, layer: int, rows: Seq<Row>) -> Seq<Row> {
        Seq::new(rows.len(), |i: int| (self.mlp)(layer, rows[i]))
    }

    /// One layer on rows from a position on, and what it then remembers.
    pub open spec fn layer(
        self,
        layer: int,
        position: int,
        memory: Memory,
        rows: Seq<Row>,
    ) -> (Seq<Row>, Memory) {
        let (attention, after) = self.attended(layer, position, memory, self.normed(layer, rows));
        let residual = self.sums(rows, attention);
        let mlp = self.fed(layer, self.post_normed(layer, residual));
        (self.sums(residual, mlp), after)
    }

    /// The layers from one on, as many as there are memories.
    pub open spec fn layers(
        self,
        layer: int,
        position: int,
        memories: Seq<Memory>,
        rows: Seq<Row>,
    ) -> (Seq<Row>, Seq<Memory>)
        decreases memories.len(),
    {
        if memories.len() == 0 {
            (rows, memories)
        } else {
            let (out, after) = self.layer(layer, position, memories[0], rows);
            let (last, rest) = self.layers(layer + 1, position, memories.drop_first(), out);
            (last, seq![after] + rest)
        }
    }

    /// The rows behind the body for tokens from a position on, and what the
    /// layers then remember.
    pub open spec fn body(self, position: int, memories: Seq<Memory>, tokens: Seq<u32>) -> (
        Seq<Row>,
        Seq<Memory>,
    ) {
        self.layers(0, position, memories, self.embedded(tokens))
    }

    /// The logits of rows.
    pub open spec fn projected(self, rows: Seq<Row>) -> Seq<Row> {
        Seq::new(rows.len(), |i: int| (self.project)(rows[i]))
    }
}

proof fn attention_of_pieces(
    kernels: Kernels,
    layer: int,
    position: int,
    memory: Memory,
    a: Seq<Row>,
    b: Seq<Row>,
)
    ensures
        ({
            let (first, between) = kernels.attended(layer, position, memory, a);
            let (second, after) = kernels.attended(layer, position + a.len(), between, b);
            &&& kernels.attended(layer, position, memory, a + b) == (first + second, after)
            &&& first.len() == a.len()
            &&& second.len() == b.len()
        }),
    decreases a.len() + b.len(),
{
    let (first, between) = kernels.attended(layer, position, memory, a);
    if b.len() == 0 {
        assert(a + b =~= a);
        assert(first + Seq::<Row>::empty() =~= first);
        if a.len() > 0 {
            attention_of_pieces(kernels, layer, position, memory, a.drop_last(), b);
        }
    } else {
        assert((a + b).drop_last() =~= a + b.drop_last());
        assert((a + b).last() == b.last());
        attention_of_pieces(kernels, layer, position, memory, a, b.drop_last());
        let (second, after) = kernels.attended(layer, position + a.len(), between, b.drop_last());
        let (out, _) = kernels.attend(
            layer,
            position + (a + b).len() - 1,
            after,
            b.last(),
        );
        assert((first + second).push(out) =~= first + second.push(out));
    }
}

proof fn layer_of_pieces(
    kernels: Kernels,
    layer: int,
    position: int,
    memory: Memory,
    a: Seq<Row>,
    b: Seq<Row>,
)
    ensures
        ({
            let (first, between) = kernels.layer(layer, position, memory, a);
            let (second, after) = kernels.layer(layer, position + a.len(), between, b);
            &&& kernels.layer(layer, position, memory, a + b) == (first + second, after)
            &&& first.len() == a.len()
            &&& second.len() == b.len()
        }),
{
    let (na, nb) = (kernels.normed(layer, a), kernels.normed(layer, b));
    assert(kernels.normed(layer, a + b) =~= na + nb);
    attention_of_pieces(kernels, layer, position, memory, na, nb);
    let (aa, between) = kernels.attended(layer, position, memory, na);
    let (ab, _) = kernels.attended(layer, position + a.len(), between, nb);
    let (ra, rb) = (kernels.sums(a, aa), kernels.sums(b, ab));
    assert(kernels.sums(a + b, aa + ab) =~= ra + rb);
    let (pa, pb) = (kernels.post_normed(layer, ra), kernels.post_normed(layer, rb));
    assert(kernels.post_normed(layer, ra + rb) =~= pa + pb);
    let (ma, mb) = (kernels.fed(layer, pa), kernels.fed(layer, pb));
    assert(kernels.fed(layer, pa + pb) =~= ma + mb);
    assert(kernels.sums(ra + rb, ma + mb) =~= kernels.sums(ra, ma) + kernels.sums(rb, mb));
}

proof fn layers_of_pieces(
    kernels: Kernels,
    layer: int,
    position: int,
    memories: Seq<Memory>,
    a: Seq<Row>,
    b: Seq<Row>,
)
    ensures
        ({
            let (first, between) = kernels.layers(layer, position, memories, a);
            let (second, after) = kernels.layers(layer, position + a.len(), between, b);
            &&& kernels.layers(layer, position, memories, a + b) == (first + second, after)
            &&& first.len() == a.len()
            &&& second.len() == b.len()
            &&& between.len() == memories.len()
            &&& after.len() == memories.len()
        }),
    decreases memories.len(),
{
    if memories.len() > 0 {
        layer_of_pieces(kernels, layer, position, memories[0], a, b);
        let (oa, ma) = kernels.layer(layer, position, memories[0], a);
        let (ob, mb) = kernels.layer(layer, position + a.len(), ma, b);
        let tail = memories.drop_first();
        layers_of_pieces(kernels, layer + 1, position, tail, oa, ob);
        let (_, between) = kernels.layers(layer + 1, position, tail, oa);
        assert((seq![ma] + between).drop_first() =~= between);
    }
}

/// A model during a forward, with the key/value caches by their slots.
pub struct Moment {
    pub model: GeneralQwen35,
    pub caches: Seq<Cache>,
    pub run: ForwardRun,
}

impl Moment {
    /// What the layers remember.
    pub open spec fn memories(self) -> Seq<Memory> {
        let text = self.model.config.text;
        Seq::new(
            text.n_layers as nat,
            |i: int|
                if text.layer_types@[i] == Qwen35LayerType::FullAttention {
                    let slot = self.model.state.full_cache_indices@[i]->Some_0;
                    Memory::Full(self.caches[slot as int])
                } else {
                    Memory::Linear(held(self.model.state.linear@[i]->Some_0))
                },
        )
    }

    /// The rows behind the body.
    pub open spec fn rows(self) -> Seq<Row> {
        rows_of(self.run.work->Finished_hidden, self.model.config.text.hidden_size)
    }

    /// The model is valid and runs on the CPU alone, and there is a cache for
    /// each full-attention layer.
    pub open spec fn is_cpu(self) -> bool {
        &&& self.model.wf()
        &&& self.model.lane is Cpu
        &&& self.model.body is None
        &&& self.model.mlp_blocks is None
        &&& self.caches.len() == self.model.state.kv.layers
    }

    /// Nothing was run: the states are clear and the caches are empty.
    pub open spec fn is_fresh(self) -> bool {
        &&& self.model.state.is_fresh()
        &&& forall|slot: int|
            0 <= slot < self.caches.len() ==> (#[trigger] self.caches[slot]).len() == 0
    }

    /// The kernels did the work that the forward waits for, and the model took
    /// what they gave.
    pub open spec fn steps(self, kernels: Kernels, tokens: Seq<u32>, next: Moment) -> bool {
        let model = self.model;
        let frame = self.run.frame;
        let layer = self.run.layer_index;
        let width = model.config.text.hidden_size;
        let position = frame.rope.start_pos as int;
        let r = Ok::<ForwardRun, Error>(next.run);
        &&& next.is_cpu()
        &&& match self.run.work {
            Work::Embed => {
                &&& next.caches == self.caches
                &&& exists|hidden: Tensor|
                    {
                        &&& #[trigger] shows(hidden, width, kernels.embedded(tokens))
                        &&& model.enters(frame, 0, hidden, next.model, r)
                    }
            },
            Work::InputNorm { hidden } => {
                &&& next.caches == self.caches
                &&& exists|normed: Tensor|
                    {
                        &&& #[trigger] shows(
                            normed,
                            width,
                            kernels.normed(layer as int, rows_of(hidden, width)),
                        )
                        &&& model.attends(frame, layer, hidden, normed, next.model, r)
                    }
            },
            Work::LinearAttention { hidden, normed } => {
                let (rows, memory) = kernels.attended(
                    layer as int,
                    position,
                    Memory::Linear(held(model.state.linear@[layer as int]->Some_0)),
                    rows_of(normed, width),
                );
                &&& next.caches == self.caches
                &&& exists|attention: Tensor, state: Qwen35LinearState|
                    {
                        &&& #[trigger] shows(attention, width, rows)
                        &&& memory == Memory::Linear(#[trigger] held(state))
                        &&& model.recurs(
                            frame,
                            layer,
                            hidden,
                            attention,
                            state,
                            next.model,
                            r,
                        )
                    }
            },
            Work::FullAttention { hidden, normed, cache_index } => {
                let (rows, memory) = kernels.attended(
                    layer as int,
                    position,
                    Memory::Full(self.caches[cache_index as int]),
                    rows_of(normed, width),
                );
                &&& next.caches == self.caches.update(cache_index as int, memory->Full_0)
                &&& exists|attention: Tensor|
                    {
                        &&& #[trigger] shows(attention, width, rows)
                        &&& model.goes_on(
                            frame,
                            layer,
                            Work::Residual { hidden, attention },
                            next.model,
                            r,
                        )
                    }
            },
            Work::Residual { hidden, attention } => {
                let rows = kernels.sums(rows_of(hidden, width), rows_of(attention, width));
                &&& next.caches == self.caches
                &&& exists|residual: Tensor, normed: Tensor|
                    {
                        &&& #[trigger] shows(residual, width, rows)
                        &&& #[trigger] shows(normed, width, kernels.post_normed(layer as int, rows))
                        &&& model.feeds(frame, layer, residual, normed, next.model, r)
                    }
            },
            Work::Mlp { residual, normed } => {
                &&& next.caches == self.caches
                &&& exists|mlp: Tensor|
                    {
                        &&& #[trigger] shows(
                            mlp,
                            width,
                            kernels.fed(layer as int, rows_of(normed, width)),
                        )
                        &&& model.goes_on(
                            frame,
                            layer,
                            Work::AddMlp { residual, mlp },
                            next.model,
                            r,
                        )
                    }
            },
            Work::AddMlp { residual, mlp } => {
                &&& next.caches == self.caches
                &&& exists|hidden: Tensor|
                    {
                        &&& #[trigger] shows(
                            hidden,
                            width,
                            kernels.sums(rows_of(residual, width), rows_of(mlp, width)),
                        )
                        &&& model.enters(frame, (layer + 1) as usize, hidden, next.model, r)
                    }
            },
            _ => false,
        }
    }
}

/// One step of a forward.
pub open spec fn steps_at(kernels: Kernels, tokens: Seq<u32>, path: Seq<Moment>, i: int) -> bool {
    path[i].steps(kernels, tokens, path[i + 1])
}

/// A whole forward of the tokens on the CPU: from its begin, step by step, to
/// its end.
pub open spec fn is_forward(kernels: Kernels, tokens: Seq<u32>, path: Seq<Moment>) -> bool {
    &&& path.len() > 0
    &&& path[0].is_cpu()
    &&& path[0].model.begins(tokens, path[0].run.frame.start_pos, path[0].run)
    &&& forall|i: int| 0 <= i < path.len() - 1 ==> #[trigger] steps_at(kernels, tokens, path, i)
    &&& path.last().run.work is Finished
}

proof fn slots_differ(kinds: Seq<Qwen35LayerType>, i: int, j: int)
    requires
        0 <= i < j <= kinds.len(),
        kinds[i] == Qwen35LayerType::FullAttention,
    ensures
        full_layers_before(kinds, i) < full_layers_before(kinds, j),
    decreases j - i,
{
    if i + 1 < j {
        slots_differ(kinds, i, j - 1);
    }
}

/// A step of attention changes what its own layer remembers, and nothing else.
proof fn attention_writes_its_layer(
    kernels: Kernels,
    tokens: Seq<u32>,
    from: Moment,
    next: Moment,
    memory: Memory,
)
    requires
        from.is_cpu(),
        from.model.runs(from.run),
        from.steps(kernels, tokens, next),
        match from.run.work {
            Work::LinearAttention { normed, .. } => memory == kernels.attended(
                from.run.layer_index as int,
                from.run.frame.rope.start_pos as int,
                from.memories()[from.run.layer_index as int],
                rows_of(normed, from.model.config.text.hidden_size),
            ).1,
            Work::FullAttention { normed, cache_index, .. } => {
                &&& from.model.config.text.layer_types@[from.run.layer_index as int]
                    == Qwen35LayerType::FullAttention
                &&& from.model.state.full_cache_indices@[from.run.layer_index as int] == Some(
                    cache_index,
                )
                &&& memory == kernels.attended(
                    from.run.layer_index as int,
                    from.run.frame.rope.start_pos as int,
                    from.memories()[from.run.layer_index as int],
                    rows_of(normed, from.model.config.text.hidden_size),
                ).1
            },
            _ => false,
        },
    ensures
        next.memories() == from.memories().update(from.run.layer_index as int, memory),
        next.model.config == from.model.config,
        next.model.state.position == from.model.state.position,
{
    let text = from.model.config.text;
    let layer = from.run.layer_index as int;
    let kinds = text.layer_types@;
    let indices = from.model.state.full_cache_indices@;
    assert forall|i: int| 0 <= i < kinds.len() && kinds[i] == Qwen35LayerType::FullAttention
        implies indices[i] is Some && #[trigger] indices[i]->Some_0 < from.caches.len()
        && indices[i]->Some_0 == full_layers_before(kinds, i) by {
        assert((from.model.state.linear@[i] is Some) == (kinds[i]
            == Qwen35LayerType::LinearAttention));
        slots_differ(kinds, i, kinds.len() as int);
    }
    match from.run.work {
        Work::LinearAttention { hidden, normed } => {
            assert(from.memories()[layer] == Memory::Linear(
                held(from.model.state.linear@[layer]->Some_0),
            ));
            assert(next.memories() =~= from.memories().update(layer, memory));
        },
        Work::FullAttention { cache_index, .. } => {
            memory_kind_stays(
                kernels,
                layer,
                from.run.frame.rope.start_pos as int,
                from.memories()[layer],
                rows_of(from.run.work->FullAttention_normed, text.hidden_size),
            );
            assert forall|i: int| 0 <= i < text.n_layers implies #[trigger] next.memories()[i]
                == from.memories().update(layer, memory)[i] by {
                if kinds[i] == Qwen35LayerType::FullAttention {
                    assert(indices[i]->Some_0 == full_layers_before(kinds, i));
                    assert(indices[layer]->Some_0 == full_layers_before(kinds, layer));
                    if i < layer {
                        slots_differ(kinds, i, layer);
                    } else if layer < i {
                        slots_differ(kinds, layer, i);
                    }
                }
            }
            assert(next.memories() =~= from.memories().update(layer, memory));
        },
        _ => {},
    }
}

proof fn memory_kind_stays(
    kernels: Kernels,
    layer: int,
    position: int,
    memory: Memory,
    rows: Seq<Row>,
)
    ensures
        kernels.attended(layer, position, memory, rows).1 is Full == memory is Full,
        kernels.attended(layer, position, memory, rows).0.len() == rows.len(),
    decreases rows.len(),
{
    if rows.len() > 0 {
        memory_kind_stays(kernels, layer, position, memory, rows.drop_last());
    }
}

/// A forward has come to a layer, or to its end, with an activation that holds
/// these rows.
spec fn comes_to(moment: Moment, first: Moment, layer: int, rows: Seq<Row>) -> bool {
    let text = first.model.config.text;
    &&& moment.is_cpu()
    &&& moment.model.config == first.model.config
    &&& moment.run.frame == first.run.frame
    &&& moment.run.layer_index == layer
    &&& layer <= text.n_layers
    &&& if layer < text.n_layers {
        &&& moment.run.work matches Work::InputNorm { hidden } && shows(
            hidden,
            text.hidden_size,
            rows,
        )
        &&& moment.model.runs(moment.run)
    } else {
        &&& moment.run.work matches Work::Finished { hidden } && shows(
            hidden,
            text.hidden_size,
            rows,
        )
        &&& moment.model.state.position == first.run.frame.start_pos
            + first.run.frame.sequence_length
    }
}

proof fn a_layer_takes_five_steps(
    kernels: Kernels,
    tokens: Seq<u32>,
    path: Seq<Moment>,
    i: int,
    rows: Seq<Row>,
)
    requires
        is_forward(kernels, tokens, path),
        0 <= i < path.len(),
        path[i].run.layer_index < path[0].model.config.text.n_layers,
        comes_to(path[i], path[0], path[i].run.layer_index as int, rows),
    ensures
        i + 5 < path.len(),
        ({
            let layer = path[i].run.layer_index as int;
            let (out, after) = kernels.layer(
                layer,
                path[0].run.frame.rope.start_pos as int,
                path[i].memories()[layer],
                rows,
            );
            &&& comes_to(path[i + 5], path[0], layer + 1, out)
            &&& path[i + 5].memories() == path[i].memories().update(layer, after)
        }),
{
    let text = path[0].model.config.text;
    let width = text.hidden_size;
    let layer = path[i].run.layer_index as int;
    let position = path[0].run.frame.rope.start_pos as int;
    let memory = path[i].memories()[layer];
    let normed = kernels.normed(layer, rows);
    let (attention, after) = kernels.attended(layer, position, memory, normed);
    memory_kind_stays(kernels, layer, position, memory, normed);
    assert(i + 1 < path.len());
    assert(steps_at(kernels, tokens, path, i));
    assert(path[i + 1].memories() =~= path[i].memories());
    assert(path[i].model.state.linear@[layer] is Some == (text.layer_types@[layer]
        == Qwen35LayerType::LinearAttention));
    assert(path[i + 1].run.work is LinearAttention || path[i + 1].run.work is FullAttention);
    assert(i + 2 < path.len());
    assert(steps_at(kernels, tokens, path, i + 1));
    attention_writes_its_layer(kernels, tokens, path[i + 1], path[i + 2], after);
    assert(path[i + 2].run.work matches Work::Residual { hidden, attention: given } && shows(
        hidden,
        width,
        rows,
    ) && shows(given, width, attention));
    let residual = kernels.sums(rows, attention);
    assert(i + 3 < path.len());
    assert(steps_at(kernels, tokens, path, i + 2));
    assert(path[i + 3].memories() =~= path[i + 2].memories());
    assert(path[i + 3].run.work matches Work::Mlp { residual: given, normed } && shows(
        given,
        width,
        residual,
    ) && shows(normed, width, kernels.post_normed(layer, residual)));
    assert(i + 4 < path.len());
    assert(steps_at(kernels, tokens, path, i + 3));
    assert(path[i + 4].memories() =~= path[i + 3].memories());
    assert(i + 5 < path.len());
    assert(steps_at(kernels, tokens, path, i + 4));
    assert(path[i + 5].memories() =~= path[i + 4].memories());
}

proof fn the_layers_run_in_turn(
    kernels: Kernels,
    tokens: Seq<u32>,
    path: Seq<Moment>,
    i: int,
    rows: Seq<Row>,
)
    requires
        is_forward(kernels, tokens, path),
        0 <= i < path.len(),
        comes_to(path[i], path[0], path[i].run.layer_index as int, rows),
    ensures
        ({
            let layer = path[i].run.layer_index as int;
            let (out, after) = kernels.layers(
                layer,
                path[0].run.frame.rope.start_pos as int,
                path[i].memories().skip(layer),
                rows,
            );
            &&& comes_to(
                path.last(),
                path[0],
                path[0].model.config.text.n_layers as int,
                out,
            )
            &&& path.last().memories() == path[i].memories().take(layer) + after
        }),
    decreases path[0].model.config.text.n_layers - path[i].run.layer_index,
{
    let layers = path[0].model.config.text.n_layers as int;
    let layer = path[i].run.layer_index as int;
    let position = path[0].run.frame.rope.start_pos as int;
    let memories = path[i].memories();
    if layer == layers {
        if i < path.len() - 1 {
            assert(steps_at(kernels, tokens, path, i));
        }
        assert(memories.skip(layer).len() == 0);
        assert(memories.take(layer) + memories.skip(layer) =~= memories);
    } else {
        a_layer_takes_five_steps(kernels, tokens, path, i, rows);
        let (out, after) = kernels.layer(layer, position, memories[layer], rows);
        the_layers_run_in_turn(kernels, tokens, path, i + 5, out);
        let later = path[i + 5].memories();
        assert(memories.skip(layer)[0] == memories[layer]);
        assert(memories.skip(layer).drop_first() =~= later.skip(layer + 1));
        let (_, rest) = kernels.layers(layer + 1, position, later.skip(layer + 1), out);
        assert(later.take(layer + 1) + rest =~= memories.take(layer) + (seq![after] + rest));
    }
}

/// A whole forward on the CPU gives the rows that the kernels give for its
/// tokens from its position on, leaves what they leave in the memories of the
/// layers, and moves the stream on by its tokens.
pub proof fn a_forward_runs_the_body(kernels: Kernels, tokens: Seq<u32>, path: Seq<Moment>)
    requires
        is_forward(kernels, tokens, path),
    ensures
        ({
            let start = path[0].model.state.position as int;
            let (rows, after) = kernels.body(start, path[0].memories(), tokens);
            let width = path[0].model.config.text.hidden_size;
            &&& shows(path.last().run.work->Finished_hidden, width, rows)
            &&& rows.len() == tokens.len()
            &&& path.last().rows() == rows
            &&& path.last().memories() == after
            &&& path.last().model.state.position == start + tokens.len()
            &&& path.last().model.config == path[0].model.config
            &&& path.last().is_cpu()
        }),
{
    let memories = path[0].memories();
    let rows = kernels.embedded(tokens);
    if path.len() == 1 {
        assert(false);
    }
    assert(steps_at(kernels, tokens, path, 0));
    assert(path[1].memories() =~= memories);
    the_layers_run_in_turn(kernels, tokens, path, 1, rows);
    assert(memories.skip(0) =~= memories);
    let start = path[0].model.state.position as int;
    let (out, after) = kernels.body(start, memories, tokens);
    assert(memories.take(0) + after =~= after);
    layers_of_pieces(kernels, 0, start, memories, rows, Seq::empty());
    assert(rows + Seq::<Row>::empty() =~= rows);
}

/// The tokens of all pieces.
pub open spec fn joined(pieces: Seq<Seq<u32>>) -> Seq<u32>
    decreases pieces.len(),
{
    if pieces.len() == 0 {
        Seq::empty()
    } else {
        joined(pieces.drop_last()) + pieces.last()
    }
}

/// The rows behind the body of all forwards.
pub open spec fn joined_rows(paths: Seq<Seq<Moment>>) -> Seq<Row>
    decreases paths.len(),
{
    if paths.len() == 0 {
        Seq::empty()
    } else {
        joined_rows(paths.drop_last()) + paths.last().last().rows()
    }
}

/// A forward starts with the model and the caches that the one before left.
pub open spec fn follows_on(paths: Seq<Seq<Moment>>, i: int) -> bool {
    &&& paths[i + 1][0].model == paths[i].last().model
    &&& paths[i + 1][0].caches == paths[i].last().caches
}

/// One forward for each piece, each behind the one before.
pub open spec fn is_stream(
    kernels: Kernels,
    pieces: Seq<Seq<u32>>,
    paths: Seq<Seq<Moment>>,
) -> bool {
    &&& pieces.len() > 0
    &&& paths.len() == pieces.len()
    &&& forall|i: int| 0 <= i < paths.len() ==> is_forward(kernels, pieces[i], #[trigger] paths[i])
    &&& forall|i: int| 0 <= i < paths.len() - 1 ==> #[trigger] follows_on(paths, i)
}

proof fn a_stream_runs_the_body(
    kernels: Kernels,
    pieces: Seq<Seq<u32>>,
    paths: Seq<Seq<Moment>>,
)
    requires
        is_stream(kernels, pieces, paths),
    ensures
        ({
            let first = paths[0][0];
            let start = first.model.state.position as int;
            let last = paths.last().last();
            &&& kernels.body(start, first.memories(), joined(pieces)) == (
                joined_rows(paths),
                last.memories(),
            )
            &&& joined_rows(paths).len() == joined(pieces).len()
            &&& last.model.state.position == start + joined(pieces).len()
            &&& last.model.config == first.model.config
        }),
    decreases pieces.len(),
{
    let first = paths[0][0];
    let start = first.model.state.position as int;
    let memories = first.memories();
    let n = pieces.len() - 1;
    a_forward_runs_the_body(kernels, pieces[n], paths[n]);
    if n == 0 {
        assert(joined(pieces.drop_last()) + pieces.last() =~= pieces[0]);
        assert(joined_rows(paths.drop_last()) + paths.last().last().rows()
            =~= paths[0].last().rows());
    } else {
        let before = pieces.drop_last();
        let earlier = paths.drop_last();
        assert forall|i: int| 0 <= i < earlier.len() implies is_forward(
            kernels,
            before[i],
            #[trigger] earlier[i],
        ) by {
            assert(earlier[i] == paths[i]);
        }
        assert forall|i: int| 0 <= i < earlier.len() - 1 implies #[trigger] follows_on(
            earlier,
            i,
        ) by {
            assert(follows_on(paths, i));
        }
        a_stream_runs_the_body(kernels, before, earlier);
        assert(follows_on(paths, n - 1));
        let (a, b) = (kernels.embedded(joined(before)), kernels.embedded(pieces[n]));
        assert(kernels.embedded(joined(pieces)) =~= a + b);
        layers_of_pieces(kernels, 0, start, memories, a, b);
        assert(paths[n][0].memories() =~= earlier.last().last().memories());
    }
}

proof fn fresh_layers_remember_nothing(a: Moment, b: Moment)
    requires
        a.is_cpu(),
        b.is_cpu(),
        a.is_fresh(),
        b.is_fresh(),
        a.model.config == b.model.config,
    ensures
        a.memories() == b.memories(),
{
    let text = a.model.config.text;
    let kinds = text.layer_types@;
    assert forall|i: int| 0 <= i < text.n_layers implies #[trigger] a.memories()[i]
        == b.memories()[i] by {
        assert((a.model.state.linear@[i] is Some) == (kinds[i]
            == Qwen35LayerType::LinearAttention));
        assert((b.model.state.linear@[i] is Some) == (kinds[i]
            == Qwen35LayerType::LinearAttention));
        if kinds[i] == Qwen35LayerType::FullAttention {
            slots_differ(kinds, i, kinds.len() as int);
            let slot = full_layers_before(kinds, i) as int;
            assert(a.caches[slot].len() == 0);
            assert(b.caches[slot].len() == 0);
            assert(a.caches[slot] =~= b.caches[slot]);
        } else {
            assert(a.model.state.linear@[i]->Some_0.is_clear());
            assert(b.model.state.linear@[i]->Some_0.is_clear());
        }
    }
    assert(a.memories() =~= b.memories());
}

/// A prefill followed by decodes, or any other cut of the tokens into forwards,
/// gives what one forward of all tokens gives: the same rows and so the same
/// logits, the same position, and the same recurrent states, convolution
/// histories and caches. Both models are fresh, of one configuration, and their
/// work is done by the same kernels.
pub proof fn a_stream_in_pieces_is_one_shot(
    kernels: Kernels,
    pieces: Seq<Seq<u32>>,
    paths: Seq<Seq<Moment>>,
    one_shot: Seq<Moment>,
)
    requires
        is_stream(kernels, pieces, paths),
        is_forward(kernels, joined(pieces), one_shot),
        paths[0][0].is_fresh(),
        one_shot[0].is_fresh(),
        paths[0][0].model.config == one_shot[0].model.config,
    ensures
        ({
            let incremental = paths.last().last();
            let whole = one_shot.last();
            let text = one_shot[0].model.config.text;
            &&& whole.rows() == joined_rows(paths)
            &&& incremental.rows() == whole.rows().skip(
                joined(pieces).len() - pieces.last().len(),
            )
            &&& kernels.projected(incremental.rows()) == kernels.projected(whole.rows()).skip(
                joined(pieces).len() - pieces.last().len(),
            )
            &&& incremental.model.state.position == joined(pieces).len()
            &&& whole.model.state.position == joined(pieces).len()
            &&& forall|i: int|
                0 <= i < text.n_layers && text.layer_types@[i] == Qwen35LayerType::LinearAttention
                    ==> held((#[trigger] incremental.model.state.linear@[i])->Some_0) == held(
                    whole.model.state.linear@[i]->Some_0,
                )
            &&& incremental.memories() == whole.memories()
        }),
{
    let n = pieces.len() - 1;
    assert(is_forward(kernels, pieces[0], paths[0]));
    assert(is_forward(kernels, pieces[n], paths[n]));
    a_stream_runs_the_body(kernels, pieces, paths);
    a_forward_runs_the_body(kernels, joined(pieces), one_shot);
    a_forward_runs_the_body(kernels, pieces[n], paths[n]);
    fresh_layers_remember_nothing(paths[0][0], one_shot[0]);
    let incremental = paths.last().last();
    let whole = one_shot.last();
    let text = one_shot[0].model.config.text;
    let cut = joined(pieces).len() - pieces.last().len();
    assert(joined_rows(paths).len() == joined_rows(paths.drop_last()).len()
        + incremental.rows().len());
    assert(incremental.rows() =~= whole.rows().skip(cut));
    assert(kernels.projected(incremental.rows()) =~= kernels.projected(whole.rows()).skip(cut));
    assert forall|i: int|
        0 <= i < text.n_layers && text.layer_types@[i]
            == Qwen35LayerType::LinearAttention implies held(
        (#[trigger] incremental.model.state.linear@[i])->Some_0,
    ) == held(whole.model.state.linear@[i]->Some_0) by {
        assert(incremental.memories()[i] == whole.memories()[i]);
    }
}

/// The prefill of a generation gives the logits of the last row of a full
/// forward of the same tokens: the last row is there to be taken, and its logits
/// are the last row of those of all rows. Both streams then stand behind the
/// tokens. `row` is the row that was taken, and the logits are those that the
/// kernels give.
pub proof fn a_generation_prefill_is_the_last_row_of_a_forward(
    kernels: Kernels,
    tokens: Seq<u32>,
    full: Seq<Moment>,
    generation: Seq<Moment>,
    row: Tensor,
    full_logits: Tensor,
    last_logits: Tensor,
)
    requires
        is_forward(kernels, tokens, full),
        is_forward(kernels, tokens, generation),
        full[0].is_fresh(),
        generation[0].is_fresh(),
        full[0].model.config == generation[0].model.config,
        is_row_of(
            row,
            full[0].model.config.text.hidden_size,
            last_row(generation.last().run.work->Finished_hidden),
        ),
        shows(
            full_logits,
            full[0].model.config.text.vocab_size,
            kernels.projected(full.last().rows()),
        ),
        shows(
            last_logits,
            full[0].model.config.text.vocab_size,
            kernels.projected(rows_of(row, full[0].model.config.text.hidden_size)),
        ),
    ensures
        ({
            let text = full[0].model.config.text;
            &&& last_row_fault(
                generation.last().run.work->Finished_hidden,
                text.hidden_size,
            ) is None
            &&& full_logits.dims() == seq![tokens.len() as usize, text.vocab_size]
            &&& last_logits.dims() == seq![1usize, text.vocab_size]
            &&& rows_of(last_logits, text.vocab_size) == seq![
                rows_of(full_logits, text.vocab_size)[tokens.len() - 1],
            ]
            &&& full.last().model.state.position == tokens.len()
            &&& generation.last().model.state.position == tokens.len()
        }),
{
    let text = full[0].model.config.text;
    let width = text.hidden_size;
    let hidden = generation.last().run.work->Finished_hidden;
    a_forward_runs_the_body(kernels, tokens, full);
    a_forward_runs_the_body(kernels, tokens, generation);
    fresh_layers_remember_nothing(full[0], generation[0]);
    let rows = full.last().rows();
    let n = tokens.len() - 1;
    assert(hidden.dims()[0] == tokens.len());
    assert(rows_of(hidden, width)[n] == last_row(hidden));
    assert((n + 1) * width - n * width == width && n * width >= 0) by (nonlinear_arith)
        requires
            n >= 0,
    ;
    assert(last_row(hidden).len() == width);
    assert(1 * width == width && 0 * width == 0) by (nonlinear_arith);
    assert(row.data().subrange(0, width as int) =~= row.data());
    assert(rows_of(row, width) =~= seq![rows[n]]);
    assert(rows_of(last_logits, text.vocab_size) =~= seq![kernels.projected(rows)[n]]);
}

/// A forward on the CPU does not fail on what the kernels give: whatever they
/// gave, it goes on.
pub proof fn the_cpu_goes_on_from_every_answer(
    moment: Moment,
    frame: Frame,
    layer_index: usize,
    hidden: Tensor,
    output: Tensor,
    state: Qwen35LinearState,
    after: GeneralQwen35,
    r: Result<ForwardRun, Error>,
)
    requires
        moment.is_cpu(),
    ensures
        moment.model.enters(frame, layer_index, hidden, after, r) ==> r is Ok,
        moment.model.attends(frame, layer_index, hidden, output, after, r) ==> r is Ok,
        moment.model.recurs(frame, layer_index, hidden, output, state, after, r) ==> r is Ok,
        moment.model.feeds(frame, layer_index, hidden, output, after, r) ==> r is Ok,
{
}

} // verus!
