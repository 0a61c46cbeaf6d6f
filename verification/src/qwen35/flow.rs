//! What one piece of work of a forward hands on to the next.

use vstd::prelude::*;

use crate::qwen35::forward::Work;
use crate::tensor::Tensor;

verus! {

/// The input of a layer, where the work enters one.
pub open spec fn entry_of(work: Work) -> Option<Tensor> {
    match work {
        Work::InputNorm { hidden } => Some(hidden),
        Work::Reference { hidden } => Some(hidden),
        Work::LinearLayer { hidden } => Some(hidden),
        Work::Stack { hidden, .. } => Some(hidden),
        Work::InitialStack { hidden } => Some(hidden),
        Work::FullResidual { hidden, .. } => Some(hidden),
        Work::Finished { hidden } => Some(hidden),
        _ => None,
    }
}

/// The input of the layer that attention is to be added to.
pub open spec fn hidden_of(work: Work) -> Option<Tensor> {
    match work {
        Work::LinearAttention { hidden, .. } => Some(hidden),
        Work::GdnDecode { hidden, .. } => Some(hidden),
        Work::FullAttention { hidden, .. } => Some(hidden),
        Work::PrepareSeed { hidden, .. } => Some(hidden),
        Work::SeedBlock { hidden, .. } => Some(hidden),
        Work::SeedStack { hidden, .. } => Some(hidden),
        Work::SeedScheduled { hidden, .. } => Some(hidden),
        Work::Residual { hidden, .. } => Some(hidden),
        _ => None,
    }
}

/// The output of attention.
pub open spec fn attention_of(work: Work) -> Option<Tensor> {
    match work {
        Work::PrepareSeed { attention, .. } => Some(attention),
        Work::SeedBlock { attention, .. } => Some(attention),
        Work::SeedStack { attention, .. } => Some(attention),
        Work::SeedScheduled { attention, .. } => Some(attention),
        Work::Residual { attention, .. } => Some(attention),
        _ => None,
    }
}

/// The normed tensor that attention or the feed-forward block runs on.
pub open spec fn normed_of(work: Work) -> Option<Tensor> {
    match work {
        Work::LinearAttention { normed, .. } => Some(normed),
        Work::GdnDecode { normed, .. } => Some(normed),
        Work::FullAttention { normed, .. } => Some(normed),
        Work::Mlp { normed, .. } => Some(normed),
        Work::MlpBlock { normed, .. } => Some(normed),
        Work::GateUp { normed, .. } => Some(normed),
        Work::FinalMlp { normed, .. } => Some(normed),
        _ => None,
    }
}

/// The residual that the feed-forward output is to be added to.
pub open spec fn residual_of(work: Work) -> Option<Tensor> {
    match work {
        Work::Boundary { residual, .. } => Some(residual),
        Work::Mlp { residual, .. } => Some(residual),
        Work::MlpBlock { residual, .. } => Some(residual),
        Work::GateUp { residual, .. } => Some(residual),
        Work::ActivateDown { residual, .. } => Some(residual),
        Work::AddMlp { residual, .. } => Some(residual),
        Work::FinalNorm { residual } => Some(residual),
        Work::FinalMlp { residual, .. } => Some(residual),
        _ => None,
    }
}

/// The output of the feed-forward block.
pub open spec fn mlp_of(work: Work) -> Option<Tensor> {
    match work {
        Work::AddMlp { mlp, .. } => Some(mlp),
        _ => None,
    }
}

/// The next piece of work of a layer has what the layer holds.
pub open spec fn hands_on(work: Work, next: Work) -> bool {
    match work {
        Work::InputNorm { hidden } => hidden_of(next) == Some(hidden) && attention_of(next) is None,
        Work::LinearAttention { hidden, .. } => hidden_of(next) == Some(hidden) && (
        next is PrepareSeed || next is Residual),
        Work::GdnDecode { hidden, .. } => hidden_of(next) == Some(hidden) && next is Residual,
        Work::FullAttention { hidden, .. } => hidden_of(next) == Some(hidden) && next is Residual,
        Work::PrepareSeed { hidden, attention, .. } => hidden_of(next) == Some(hidden)
            && attention_of(next) == Some(attention) && next !is PrepareSeed,
        Work::SeedBlock { hidden, attention, .. } => next == (Work::Residual { hidden, attention }),
        Work::SeedStack { hidden, attention, .. } => next == (Work::Residual { hidden, attention }),
        Work::SeedScheduled { hidden, attention, .. } => next == (Work::Residual {
            hidden,
            attention,
        }),
        Work::Mlp { residual, .. } => residual_of(next) == Some(residual) && next is AddMlp,
        Work::MlpBlock { residual, .. } => residual_of(next) == Some(residual) && next is AddMlp,
        Work::GateUp { residual, .. } => residual_of(next) == Some(residual)
            && next is ActivateDown,
        Work::ActivateDown { residual, .. } => residual_of(next) == Some(residual)
            && next is AddMlp,
        Work::FinalNorm { residual } => residual_of(next) == Some(residual) && next is FinalMlp,
        Work::FinalMlp { residual, .. } => residual_of(next) == Some(residual) && next is AddMlp,
        _ => true,
    }
}

/// Attention is added to the input of the layer: whatever runs between the input
/// norm and the sum, the sum is of the tensor that was normed and of the tensor
/// that attention returned.
pub proof fn attention_is_added_to_the_input(
    hidden: Tensor,
    attending: Work,
    seeding: Work,
    handing: Work,
    sum: Work,
)
    requires
        hands_on(Work::InputNorm { hidden }, attending),
        hands_on(attending, seeding),
        seeding is PrepareSeed,
        hands_on(seeding, handing),
        handing !is Residual,
        hands_on(handing, sum),
    ensures
        sum matches Work::Residual { hidden: h, attention: a } && h == hidden && (
        seeding matches Work::PrepareSeed { attention, .. } && a == attention),
{
}

/// The shorter ways to the same sum, where no state is handed over.
pub proof fn attention_without_a_seed_is_added_to_the_input(
    hidden: Tensor,
    attending: Work,
    sum: Work,
)
    requires
        hands_on(Work::InputNorm { hidden }, attending),
        hands_on(attending, sum),
        sum is Residual,
    ensures
        sum matches Work::Residual { hidden: h, .. } && h == hidden,
{
}

/// The output of the feed-forward block is added to the residual that it ran
/// behind, on every way through the block.
pub proof fn the_feed_forward_output_is_added_to_the_residual(
    residual: Tensor,
    normed: Tensor,
    next: Work,
    last: Work,
)
    ensures
        hands_on(Work::Mlp { residual, normed }, next) ==> (next matches Work::AddMlp {
            residual: r,
            ..
        } && r == residual),
        hands_on(Work::MlpBlock { residual, normed }, next) ==> (next matches Work::AddMlp {
            residual: r,
            ..
        } && r == residual),
        hands_on(Work::FinalMlp { residual, normed }, next) ==> (next matches Work::AddMlp {
            residual: r,
            ..
        } && r == residual),
        hands_on(Work::GateUp { residual, normed }, next) && hands_on(next, last) ==> (
        last matches Work::AddMlp { residual: r, .. } && r == residual),
        hands_on(Work::FinalNorm { residual }, next) && hands_on(next, last) ==> (
        last matches Work::AddMlp { residual: r, .. } && r == residual),
{
}

} // verus!
