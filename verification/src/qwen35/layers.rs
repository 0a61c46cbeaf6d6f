//! Which layers a route takes: every layer, the full-attention layers, or the
//! runs of three linear layers.

use vstd::prelude::*;

use crate::error::{answers, either, Error, Fault};
use crate::qwen35::config::Qwen35LayerType;

verus! {

/// The route of stacks alone, as errors name it.
pub const ALL_STACKS_ROUTE: &'static str = "all-stack3-v1";

/// The route of stacks with the head, as errors name it.
pub const STACKS_AND_HEAD_ROUTE: &'static str = "Stack3 + lm_head v2";

/// All layers of a model.
pub open spec fn all_layers(n: nat) -> Seq<usize> {
    Seq::new(n, |i: int| i as usize)
}

/// Lists all layers of a model.
pub fn every_layer(n: usize) -> (layers: Vec<usize>)
    ensures
        layers@ == all_layers(n as nat),
{
    let mut layers: Vec<usize> = Vec::with_capacity(n);
    let mut i: usize = 0;
    while i < n
        invariant
            i <= n,
            layers@.len() == i,
            forall|j: int| 0 <= j < i ==> #[trigger] layers@[j] == j,
        decreases n - i,
    {
        layers.push(i);
        i = i + 1;
    }
    proof {
        assert(layers@ =~= all_layers(n as nat));
    }
    layers
}

/// The full-attention layers among the first `n`, in their order.
pub open spec fn full_layers(kinds: Seq<Qwen35LayerType>, n: nat) -> Seq<usize>
    decreases n,
{
    if n == 0 {
        Seq::empty()
    } else if kinds[n - 1] == Qwen35LayerType::FullAttention {
        full_layers(kinds, (n - 1) as nat).push((n - 1) as usize)
    } else {
        full_layers(kinds, (n - 1) as nat)
    }
}

/// Lists the full-attention layers in their order.
pub fn full_attention_layers(kinds: &Vec<Qwen35LayerType>) -> (layers: Vec<usize>)
    ensures
        layers@ == full_layers(kinds@, kinds@.len()),
{
    let mut layers: Vec<usize> = Vec::new();
    let mut i: usize = 0;
    while i < kinds.len()
        invariant
            i <= kinds@.len(),
            layers@ == full_layers(kinds@, i as nat),
        decreases kinds@.len() - i,
    {
        if kinds[i] == Qwen35LayerType::FullAttention {
            layers.push(i);
        }
        i = i + 1;
    }
    layers
}

/// The first layer from `i` on that is not linear attention.
pub open spec fn run_end(kinds: Seq<Qwen35LayerType>, i: nat) -> nat
    decreases kinds.len() - i,
{
    if i < kinds.len() && kinds[i as int] == Qwen35LayerType::LinearAttention {
        run_end(kinds, i + 1)
    } else {
        i
    }
}

proof fn run_end_is_later(kinds: Seq<Qwen35LayerType>, i: nat)
    requires
        i <= kinds.len(),
    ensures
        i <= run_end(kinds, i) <= kinds.len(),
        forall|j: int|
            i <= j < run_end(kinds, i) ==> #[trigger] kinds[j] == Qwen35LayerType::LinearAttention,
        run_end(kinds, i) < kinds.len() ==> kinds[run_end(kinds, i) as int]
            == Qwen35LayerType::FullAttention,
    decreases kinds.len() - i,
{
    if i < kinds.len() && kinds[i as int] == Qwen35LayerType::LinearAttention {
        run_end_is_later(kinds, i + 1);
    }
}

/// The first run of linear layers from `i` on that is not three layers long.
pub open spec fn runs_fault(kinds: Seq<Qwen35LayerType>, route: &'static str, i: nat) -> Fault
    decreases kinds.len() - i,
{
    if i >= kinds.len() {
        None
    } else if kinds[i as int] == Qwen35LayerType::LinearAttention {
        let end = run_end(kinds, i);
        if end <= i || end > kinds.len() {
            None
        } else if end - i != 3 {
            Some(
                Error::StackRunLength {
                    route,
                    length: (end - i) as usize,
                    run_start: i as usize,
                }.text(),
            )
        } else {
            runs_fault(kinds, route, end)
        }
    } else {
        runs_fault(kinds, route, i + 1)
    }
}

/// The first layers of the runs of linear layers from `i` on.
pub open spec fn run_starts(kinds: Seq<Qwen35LayerType>, i: nat) -> Seq<usize>
    decreases kinds.len() - i,
{
    if i >= kinds.len() {
        Seq::empty()
    } else if kinds[i as int] == Qwen35LayerType::LinearAttention {
        let end = run_end(kinds, i);
        if end <= i || end > kinds.len() {
            Seq::empty()
        } else {
            seq![i as usize] + run_starts(kinds, end)
        }
    } else {
        run_starts(kinds, i + 1)
    }
}

/// What keeps the layers of a model from a route of stacks of three.
pub open spec fn stack_runs_fault(kinds: Seq<Qwen35LayerType>, route: &'static str) -> Fault {
    either(
        runs_fault(kinds, route, 0),
        if run_starts(kinds, 0).len() == 0 || full_layers(kinds, kinds.len()).len() == 0 {
            Some(Error::StackRunsMissing { route }.text())
        } else {
            None
        },
    )
}

/// Finds the stacks of a model whose linear layers come in runs of three, and
/// its full-attention layers.
pub fn scan_stack_runs(kinds: &Vec<Qwen35LayerType>, route: &'static str) -> (r: Result<
    (Vec<usize>, Vec<usize>),
    Error,
>)
    ensures
        answers(r, stack_runs_fault(kinds@, route)),
        r matches Ok(found) ==> {
            &&& found.0@ == run_starts(kinds@, 0)
            &&& found.1@ == full_layers(kinds@, kinds@.len())
        },
{
    let n: usize = kinds.len();
    let mut starts: Vec<usize> = Vec::new();
    let mut i: usize = 0;
    proof {
        assert(run_starts(kinds@, 0) =~= starts@ + run_starts(kinds@, 0));
    }
    while i < n
        invariant
            i <= n,
            n == kinds@.len(),
            runs_fault(kinds@, route, 0) == runs_fault(kinds@, route, i as nat),
            run_starts(kinds@, 0) == starts@ + run_starts(kinds@, i as nat),
        decreases n - i,
    {
        if kinds[i] == Qwen35LayerType::LinearAttention {
            let run_start: usize = i;
            proof {
                run_end_is_later(kinds@, run_start as nat);
                run_end_is_later(kinds@, run_start as nat + 1);
            }
            while i < n && kinds[i] == Qwen35LayerType::LinearAttention
                invariant
                    run_start <= i <= n,
                    n == kinds@.len(),
                    run_end(kinds@, run_start as nat) == run_end(kinds@, i as nat),
                    run_end(kinds@, run_start as nat) > run_start,
                decreases n - i,
            {
                i = i + 1;
            }
            if i - run_start != 3 {
                return Err(Error::StackRunLength { route, length: i - run_start, run_start });
            }
            let ghost before = starts@;
            starts.push(run_start);
            proof {
                assert(before + (seq![run_start] + run_starts(kinds@, i as nat)) =~= starts@
                    + run_starts(kinds@, i as nat));
            }
        } else {
            i = i + 1;
        }
    }
    proof {
        assert(run_starts(kinds@, 0) =~= starts@);
    }
    let full = full_attention_layers(kinds);
    if starts.len() == 0 || full.len() == 0 {
        return Err(Error::StackRunsMissing { route });
    }
    Ok((starts, full))
}

proof fn stacks_cover_from(kinds: Seq<Qwen35LayerType>, route: &'static str, i: nat, layer: int)
    requires
        runs_fault(kinds, route, i) is None,
        i <= layer < kinds.len(),
        kinds[layer] == Qwen35LayerType::LinearAttention,
        kinds.len() <= usize::MAX,
    ensures
        exists|k: int|
            0 <= k < run_starts(kinds, i).len() && (#[trigger] run_starts(kinds, i)[k]) <= layer
                < run_starts(kinds, i)[k] + 3,
    decreases kinds.len() - i,
{
    let starts = run_starts(kinds, i);
    if kinds[i as int] == Qwen35LayerType::LinearAttention {
        run_end_is_later(kinds, i);
        run_end_is_later(kinds, i + 1);
        let end = run_end(kinds, i);
        if layer < end {
            assert(starts[0] == i);
        } else {
            let rest = run_starts(kinds, end);
            stacks_cover_from(kinds, route, end, layer);
            let k = choose|k: int|
                0 <= k < rest.len() && (#[trigger] rest[k]) <= layer < rest[k] + 3;
            assert(starts[k + 1] == rest[k]);
        }
    } else {
        stacks_cover_from(kinds, route, i + 1, layer);
    }
}

/// Where the linear layers come in runs of three, every linear layer belongs to
/// a stack that was found.
pub proof fn stacks_cover_the_linear_layers(
    kinds: Seq<Qwen35LayerType>,
    route: &'static str,
    layer: int,
)
    requires
        stack_runs_fault(kinds, route) is None,
        0 <= layer < kinds.len() <= usize::MAX,
        kinds[layer] == Qwen35LayerType::LinearAttention,
    ensures
        exists|k: int|
            0 <= k < run_starts(kinds, 0).len() && (#[trigger] run_starts(kinds, 0)[k]) <= layer
                < run_starts(kinds, 0)[k] + 3,
{
    stacks_cover_from(kinds, route, 0, layer);
}

} // verus!
