//! What a model tells about its accelerated parts.

use vstd::prelude::*;

use crate::error::Fault;
use crate::qwen35::boundary_lane::Qwen35MetalW8MlpStack3BoundaryBodyV1Stats;
use crate::qwen35::lane::Lane;
use crate::qwen35::ledger::{
    Qwen35MetalW8AllLinearLayersPrecisionV2AggregateLedger, Qwen35MetalW8LinearLayerBufferLedger,
    Qwen35MetalW8LinearLayerStack3BufferLedger, Qwen35MetalW8LinearLayerStacksV1AggregateLedger,
    Qwen35MetalW8MlpBlockBufferLedger, Qwen35MetalW8MlpStack3BoundaryBodyV1AggregateLedger,
    Qwen35MetalW8MlpStack3BoundaryTailHeadV1AggregateLedger,
    Qwen35MetalW8Stack3LmHeadV2AggregateLedger,
};
use crate::qwen35::linear_lane::{
    Qwen35MetalW8AllLinearLayersPrecisionV2Stats, Qwen35MetalW8GdnStats,
    Qwen35MetalW8LinearLayerPrecisionV2Stats, Qwen35MetalW8LinearLayerStats,
    Qwen35PackedW8LinearLayerReferenceStats,
};
use crate::qwen35::metal::LinearLayerBufferLedger;
use crate::qwen35::mlp_lane::{Qwen35MetalW8BodyStats, Qwen35MetalW8MlpBlockStats};
use crate::qwen35::model::{GeneralQwen35, Qwen35MetalW8LmHeadStats};
use crate::qwen35::profile::tail_head_mechanism;
use crate::qwen35::stack_lane::Qwen35MetalW8LinearLayerStack3V1;
use crate::qwen35::stacks_lane::Qwen35MetalW8LinearLayerStacksV1Stats;
use crate::qwen35::tail_lane::Qwen35MetalW8MlpStack3BoundaryTailHeadV1Stats;

verus! {

/// The only item of a list; `None` where there is none or more than one.
pub open spec fn only<T>(items: Seq<T>) -> Option<T> {
    if items.len() == 1 {
        Some(items[0])
    } else {
        None
    }
}

impl GeneralQwen35 {
    /// The counters of the accelerated gate-and-up projections.
    pub open spec fn body_stats_of(self) -> Seq<Qwen35MetalW8BodyStats> {
        match self.body {
            Some(body) => body.stats_of(),
            None => Seq::empty(),
        }
    }

    /// The counters of the accelerated gate-and-up projections.
    pub fn metal_w8_body_layer_stats(&self) -> (stats: Vec<Qwen35MetalW8BodyStats>)
        ensures
            stats@ == self.body_stats_of(),
    {
        match &self.body {
            Some(body) => body.stats(),
            None => Vec::new(),
        }
    }

    /// The counters of the only gate and up projection.
    pub fn metal_w8_body_stats(&self) -> (stats: Option<Qwen35MetalW8BodyStats>)
        ensures
            stats == only(self.body_stats_of()),
    {
        let stats = self.metal_w8_body_layer_stats();
        if stats.len() == 1 {
            Some(stats[0])
        } else {
            None
        }
    }

    /// The counters of the feed-forward blocks.
    pub open spec fn block_stats_of(self) -> Seq<Qwen35MetalW8MlpBlockStats> {
        match self.mlp_blocks {
            Some(blocks) => blocks.stats_of(),
            None => Seq::empty(),
        }
    }

    /// The counters of the feed-forward blocks.
    pub fn metal_w8_mlp_block_layer_stats(&self) -> (stats: Vec<Qwen35MetalW8MlpBlockStats>)
        ensures
            stats@ == self.block_stats_of(),
    {
        match &self.mlp_blocks {
            Some(blocks) => blocks.stats(),
            None => Vec::new(),
        }
    }

    /// The counters of the only feed-forward block.
    pub fn metal_w8_mlp_block_stats(&self) -> (stats: Option<Qwen35MetalW8MlpBlockStats>)
        ensures
            stats == only(self.block_stats_of()),
    {
        let stats = self.metal_w8_mlp_block_layer_stats();
        if stats.len() == 1 {
            Some(stats[0])
        } else {
            None
        }
    }

    /// The ledgers of the feed-forward blocks.
    pub open spec fn block_ledgers_of(self) -> Seq<Qwen35MetalW8MlpBlockBufferLedger> {
        match self.mlp_blocks {
            Some(blocks) => blocks.ledgers_of(),
            None => Seq::empty(),
        }
    }

    fn block_ledgers(&self) -> (ledgers: Vec<Qwen35MetalW8MlpBlockBufferLedger>)
        ensures
            ledgers@ == self.block_ledgers_of(),
    {
        match &self.mlp_blocks {
            Some(blocks) => blocks.buffer_ledgers(),
            None => Vec::new(),
        }
    }

    /// The counters of the head.
    pub open spec fn head_stats_of(self) -> Option<Qwen35MetalW8LmHeadStats> {
        match self.head {
            Some(head) => Some(head.stats),
            None => None,
        }
    }

    /// The counters of the head.
    pub fn metal_w8_lm_head_stats(&self) -> (stats: Option<Qwen35MetalW8LmHeadStats>)
        ensures
            stats == self.head_stats_of(),
    {
        match &self.head {
            Some(head) => Some(head.stats),
            None => None,
        }
    }

    /// The counters of the recurrent block.
    pub fn metal_w8_gdn_stats(&self) -> (stats: Option<Qwen35MetalW8GdnStats>)
        ensures
            stats == match self.lane {
                Lane::Gdn(layer) => Some(layer.stats_of()),
                _ => None,
            },
    {
        match &self.lane {
            Lane::Gdn(layer) => Some(layer.stats()),
            _ => None,
        }
    }

    /// The counters of the complete linear layer.
    pub fn metal_w8_linear_layer_stats(&self) -> (stats: Option<Qwen35MetalW8LinearLayerStats>)
        ensures
            stats == match self.lane {
                Lane::LinearLayer(layer) => Some(layer.stats_of()),
                _ => None,
            },
    {
        match &self.lane {
            Lane::LinearLayer(layer) => Some(layer.stats()),
            _ => None,
        }
    }

    /// The counters and the precision of the complete linear layer.
    pub fn metal_w8_linear_layer_precision_v2_stats(&self) -> (stats: Option<
        Qwen35MetalW8LinearLayerPrecisionV2Stats,
    >)
        ensures
            stats == match self.lane {
                Lane::LinearLayer(layer) => if layer.precision_profile is Some
                    && layer.quantization is Some {
                    Some(layer.precise_stats_of())
                } else {
                    None
                },
                _ => None,
            },
    {
        match &self.lane {
            Lane::LinearLayer(layer) => layer.precision_v2_stats(),
            _ => None,
        }
    }

    /// The ledger of the complete linear layer.
    pub fn metal_w8_linear_layer_buffer_ledger(&self) -> (ledger: Option<LinearLayerBufferLedger>)
        ensures
            ledger == match self.lane {
                Lane::LinearLayer(layer) => Some(layer.ledger),
                _ => None,
            },
    {
        match &self.lane {
            Lane::LinearLayer(layer) => Some(layer.ledger),
            _ => None,
        }
    }

    /// These are the counters of the lane of all linear layers.
    pub open spec fn has_all_linear_stats(
        self,
        stats: Qwen35MetalW8AllLinearLayersPrecisionV2Stats,
    ) -> bool {
        match self.lane {
            Lane::AllLinear(lane) => {
                    &&& stats.profile == lane.profile
                    &&& stats.mechanism == "metal-w8-all-linear-layers-precision-v2"
                    &&& stats.full_attention_mlp_mechanism == "metal-w8-mlp-block-g64"
                    &&& stats.linear_layers@ == lane.layer_stats_of()
                    &&& stats.full_attention_mlp_layers@ == self.block_stats_of()
                    &&& stats.terminal_error == lane.terminal()
            },
            _ => false,
        }
    }

    /// The counters of the lane of all linear layers.
    pub fn metal_w8_all_linear_layers_precision_v2_stats(&self) -> (r: Option<
        Qwen35MetalW8AllLinearLayersPrecisionV2Stats,
    >)
        requires
            self.wf(),
        ensures
            match self.lane {
                Lane::AllLinear(_) => r matches Some(stats) && self.has_all_linear_stats(stats),
                _ => r is None,
            },
    {
        match &self.lane {
            Lane::AllLinear(lane) => Some(lane.stats(self.metal_w8_mlp_block_layer_stats())),
            _ => None,
        }
    }

    /// The ledgers of the lane of all linear layers.
    pub fn metal_w8_all_linear_layers_precision_v2_buffer_ledgers(&self) -> (r: Option<
        Vec<Qwen35MetalW8LinearLayerBufferLedger>,
    >)
        ensures
            match self.lane {
                Lane::AllLinear(lane) => r matches Some(ledgers) && ledgers@ == lane.ledgers_of(),
                _ => r is None,
            },
    {
        match &self.lane {
            Lane::AllLinear(lane) => Some(lane.buffer_ledgers()),
            _ => None,
        }
    }

    /// The totals of the lane of all linear layers.
    pub fn metal_w8_all_linear_layers_precision_v2_aggregate_ledger(&self) -> (r: Option<
        Qwen35MetalW8AllLinearLayersPrecisionV2AggregateLedger,
    >)
        ensures
            match self.lane {
                Lane::AllLinear(lane) => r matches Some(ledger) && {
                    &&& ledger.linear_layers@ == lane.ledgers_of()
                    &&& ledger.full_attention_mlp_layers@ == self.block_ledgers_of()
                    &&& ledger.adds_up()
                },
                _ => r is None,
            },
    {
        match &self.lane {
            Lane::AllLinear(lane) => Some(
                Qwen35MetalW8AllLinearLayersPrecisionV2AggregateLedger::new(
                    lane.buffer_ledgers(),
                    self.block_ledgers(),
                ),
            ),
            _ => None,
        }
    }

    /// These are the counters of the lane of stacks.
    pub open spec fn has_stacks_stats(self, stats: Qwen35MetalW8LinearLayerStacksV1Stats) -> bool {
        match self.lane {
            Lane::Stacks(lane) => {
                    &&& stats.mechanism == "metal-w8-linear-layer-stack3-v1"
                    &&& stats.full_attention_mlp_mechanism
                        == if lane.owns_full_attention_mlp_blocks {
                        "metal-w8-mlp-block-g64"
                    } else {
                        "none"
                    }
                    &&& stats.stacks@ == lane.stacks@.map_values(
                        |stack: Qwen35MetalW8LinearLayerStack3V1| stack.stats_of(),
                    )
                    &&& stats.full_attention_mlp_layers@ == if lane.owns_full_attention_mlp_blocks {
                        self.block_stats_of()
                    } else {
                        Seq::empty()
                    }
                    &&& stats.terminal_error == lane.terminal()
            },
            _ => false,
        }
    }

    /// The counters of the lane of stacks.
    pub fn metal_w8_linear_layer_stacks_v1_stats(&self) -> (r: Option<
        Qwen35MetalW8LinearLayerStacksV1Stats,
    >)
        ensures
            match self.lane {
                Lane::Stacks(_) => r matches Some(stats) && self.has_stacks_stats(stats),
                _ => r is None,
            },
    {
        match &self.lane {
            Lane::Stacks(lane) => Some(lane.stats(self.metal_w8_mlp_block_layer_stats())),
            _ => None,
        }
    }

    /// The ledgers of the lane of stacks.
    pub fn metal_w8_linear_layer_stack3_v1_buffer_ledgers(&self) -> (r: Option<
        Vec<Qwen35MetalW8LinearLayerStack3BufferLedger>,
    >)
        ensures
            match self.lane {
                Lane::Stacks(lane) => r matches Some(ledgers) && ledgers@ == lane.ledgers_of(),
                _ => r is None,
            },
    {
        match &self.lane {
            Lane::Stacks(lane) => Some(lane.buffer_ledgers()),
            _ => None,
        }
    }

    /// The totals of the lane of stacks.
    pub fn metal_w8_linear_layer_stacks_v1_aggregate_ledger(&self) -> (r: Option<
        Qwen35MetalW8LinearLayerStacksV1AggregateLedger,
    >)
        ensures
            match self.lane {
                Lane::Stacks(lane) => r matches Some(ledger) && {
                    &&& ledger.stacks@ == lane.ledgers_of()
                    &&& ledger.full_attention_mlp_layers@ == self.block_ledgers_of()
                    &&& ledger.adds_up()
                },
                _ => r is None,
            },
    {
        match &self.lane {
            Lane::Stacks(lane) => Some(
                Qwen35MetalW8LinearLayerStacksV1AggregateLedger::new(
                    lane.buffer_ledgers(),
                    self.block_ledgers(),
                ),
            ),
            _ => None,
        }
    }

    /// The totals of the lane of stacks with the head; `None` where a total does
    /// not fit.
    pub fn metal_w8_stack3_lm_head_v2_aggregate_ledger(&self) -> (r: Option<
        Qwen35MetalW8Stack3LmHeadV2AggregateLedger,
    >)
        ensures
            self.lane !is Stacks || self.head is None ==> r is None,
            self.lane is Stacks && self.head is Some ==> exists|
                body: Qwen35MetalW8LinearLayerStacksV1AggregateLedger,
            |
                {
                    &&& #[trigger] body.adds_up()
                    &&& body.stacks@ == self.lane->Stacks_0.ledgers_of()
                    &&& body.full_attention_mlp_layers@ == self.block_ledgers_of()
                    &&& r is None == Qwen35MetalW8Stack3LmHeadV2AggregateLedger::fault(
                        body,
                        self.head->Some_0.ledger,
                    ) is Some
                    &&& r matches Some(ledger) ==> {
                        &&& ledger.body == body
                        &&& ledger.lm_head == self.head->Some_0.ledger
                        &&& ledger.adds_up()
                    }
                },
    {
        let body = match self.metal_w8_linear_layer_stacks_v1_aggregate_ledger() {
            Some(body) => body,
            None => return None,
        };
        let head = match &self.head {
            Some(head) => head.ledger,
            None => return None,
        };
        let ghost given = body;
        proof {
            assert(given.adds_up());
        }
        match Qwen35MetalW8Stack3LmHeadV2AggregateLedger::new(body, head) {
            Ok(ledger) => Some(ledger),
            Err(_) => None,
        }
    }

    /// These are the counters of the boundary body.
    pub open spec fn has_body_stats(
        self,
        stats: Qwen35MetalW8MlpStack3BoundaryBodyV1Stats,
    ) -> bool {
        match self.lane {
            Lane::BoundaryBody(body) => {
                    &&& stats.mechanism == "metal-w8-mlp-stack3-boundary-body-v1"
                    &&& stats.initial_stack == body.schedule.initial_stack.stats_of()
                    &&& stats.boundaries@ == body.schedule.boundary_stats_of()
                    &&& stats.final_mlp == body.final_mlp.stats_of()
                    &&& stats.terminal_error == body.terminal()
            },
            _ => false,
        }
    }

    /// The counters of the boundary body.
    pub fn metal_w8_mlp_stack3_boundary_body_v1_stats(&self) -> (r: Option<
        Qwen35MetalW8MlpStack3BoundaryBodyV1Stats,
    >)
        ensures
            match self.lane {
                Lane::BoundaryBody(_) => r matches Some(stats) && self.has_body_stats(stats),
                _ => r is None,
            },
    {
        match &self.lane {
            Lane::BoundaryBody(body) => Some(body.stats()),
            _ => None,
        }
    }

    /// These are the totals of the boundary body.
    pub open spec fn has_body_totals(
        self,
        ledger: Qwen35MetalW8MlpStack3BoundaryBodyV1AggregateLedger,
    ) -> bool {
        match self.lane {
            Lane::BoundaryBody(body) => {
                &&& ledger.initial_stack == body.schedule.initial_stack.ledger_of()
                &&& ledger.boundaries@ == body.schedule.boundary_ledgers_of()
                &&& ledger.final_mlp == body.final_ledger()
                &&& ledger.adds_up()
            },
            _ => false,
        }
    }

    /// Why the totals cannot be told.
    pub open spec fn body_totals_fault(self) -> Fault {
        match self.lane {
            Lane::BoundaryBody(body) => Qwen35MetalW8MlpStack3BoundaryBodyV1AggregateLedger::fault(
                body.schedule.initial_stack.ledger_of(),
                body.schedule.boundary_ledgers_of(),
                body.final_ledger(),
            ),
            _ => None,
        }
    }

    /// The totals of the boundary body; `None` where a total does not fit.
    pub fn metal_w8_mlp_stack3_boundary_body_v1_aggregate_ledger(&self) -> (r: Option<
        Qwen35MetalW8MlpStack3BoundaryBodyV1AggregateLedger,
    >)
        ensures
            match self.lane {
                Lane::BoundaryBody(_) => {
                    &&& r is None == self.body_totals_fault() is Some
                    &&& r matches Some(ledger) ==> self.has_body_totals(ledger)
                },
                _ => r is None,
            },
    {
        match &self.lane {
            Lane::BoundaryBody(body) => match body.aggregate_ledger() {
                Ok(ledger) => Some(ledger),
                Err(_) => None,
            },
            _ => None,
        }
    }

    /// These are the counters of the lane with the tail.
    pub open spec fn has_tail_stats(
        self,
        stats: Qwen35MetalW8MlpStack3BoundaryTailHeadV1Stats,
    ) -> bool {
        match self.lane {
            Lane::TailHead(lane) => {
                    &&& stats.mechanism == tail_head_mechanism(
                        lane.gdn_core_profile,
                    )
                    &&& stats.gdn_core_profile == lane.gdn_core_profile
                    &&& stats.gdn_function_chain == lane.chains.of(lane.gdn_core_profile)
                    &&& stats.initial_stack == lane.schedule.initial_stack.stats_of()
                    &&& stats.boundaries@ == lane.schedule.boundary_stats_of()
                    &&& stats.tail_layer_index == lane.tail_layer_index
                    &&& stats.tail == lane.tail
                    &&& stats.prefill_body_calls == lane.prefill_body_calls
                    &&& stats.prefill_cpu_head_calls == lane.prefill_cpu_head_calls
                    &&& stats.decode_calls == lane.decode_calls
                    &&& stats.teacher_calls == lane.teacher_calls
                    &&& stats.rerank_elapsed_ns == lane.rerank_elapsed_ns
                    &&& stats.terminal_error == lane.terminal()
            },
            _ => false,
        }
    }

    /// The counters of the lane with the tail.
    pub fn metal_w8_mlp_stack3_boundary_tail_head_v1_stats(&self) -> (r: Option<
        Qwen35MetalW8MlpStack3BoundaryTailHeadV1Stats,
    >)
        ensures
            match self.lane {
                Lane::TailHead(_) => r matches Some(stats) && self.has_tail_stats(stats),
                _ => r is None,
            },
    {
        match &self.lane {
            Lane::TailHead(lane) => Some(lane.stats()),
            _ => None,
        }
    }

    /// These are the totals of the lane with the tail.
    pub open spec fn has_tail_totals(
        self,
        ledger: Qwen35MetalW8MlpStack3BoundaryTailHeadV1AggregateLedger,
    ) -> bool {
        match self.lane {
            Lane::TailHead(lane) => {
                &&& ledger.initial_stack == lane.schedule.initial_stack.ledger_of()
                &&& ledger.boundaries@ == lane.schedule.boundary_ledgers_of()
                &&& ledger.tail_layer_index == lane.tail_layer_index
                &&& ledger.tail == lane.tail_ledger
                &&& ledger.gdn_function_chain == lane.chains.of(ledger.gdn_core_profile)
                &&& ledger.adds_up()
            },
            _ => false,
        }
    }

    /// Why the totals cannot be told.
    pub open spec fn tail_totals_fault(self) -> Fault {
        match self.lane {
            Lane::TailHead(lane) => Qwen35MetalW8MlpStack3BoundaryTailHeadV1AggregateLedger::fault(
                lane.schedule.initial_stack.ledger_of(),
                lane.schedule.boundary_ledgers_of(),
                lane.tail_ledger,
                lane.chains,
            ),
            _ => None,
        }
    }

    /// The totals of the lane with the tail; `None` where they do not add up to
    /// its fixed topology.
    pub fn metal_w8_mlp_stack3_boundary_tail_head_v1_aggregate_ledger(&self) -> (r: Option<
        Qwen35MetalW8MlpStack3BoundaryTailHeadV1AggregateLedger,
    >)
        ensures
            match self.lane {
                Lane::TailHead(_) => {
                    &&& r is None == self.tail_totals_fault() is Some
                    &&& r matches Some(ledger) ==> self.has_tail_totals(ledger)
                },
                _ => r is None,
            },
    {
        match &self.lane {
            Lane::TailHead(lane) => match lane.aggregate_ledger() {
                Ok(ledger) => Some(ledger),
                Err(_) => None,
            },
            _ => None,
        }
    }

    /// The counters of the packed reference.
    pub fn packed_w8_linear_layer_reference_stats(&self) -> (stats: Option<
        Qwen35PackedW8LinearLayerReferenceStats,
    >)
        ensures
            stats == match self.lane {
                Lane::PackedReference(reference) => Some(reference.stats_of()),
                _ => None,
            },
    {
        match &self.lane {
            Lane::PackedReference(reference) => Some(reference.stats()),
            _ => None,
        }
    }

    /// The size of the vocabulary.
    pub fn vocab_size(&self) -> (vocab_size: usize)
        ensures
            vocab_size == self.config.text.vocab_size,
    {
        self.config.text.vocab_size
    }
}

} // verus!
