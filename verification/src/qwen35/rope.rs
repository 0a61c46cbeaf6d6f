//! The rotation table of text positions: its size, and which elements a
//! rotation pairs. The angles themselves are computed outside.

use vstd::arithmetic::mul::{lemma_mul_inequality, lemma_mul_is_distributive_add_other_way};
use vstd::prelude::*;

use crate::error::{answers, rope_shape_text, Error, Fault};
use crate::float_bits::{finite, greater, is_finite, rank};
use crate::qwen35::config::Qwen35TextConfig;
use crate::tensor::{copy_dims, DType, Tensor};

verus! {

/// What stops a table for a number of tokens.
pub open spec fn rope_fault(config: Qwen35TextConfig, sequence_length: usize) -> Fault {
    let rotary_dim = config.rotary_dim;
    if sequence_length == 0 {
        Some(Error::RopeEmpty.text())
    } else if rotary_dim == 0 || rotary_dim > config.head_dim || rotary_dim % 2 != 0 {
        Some(Error::RopeDimension { rotary_dim, head_dim: config.head_dim }.text())
    } else if !is_finite(config.rope_theta_bits) || rank(config.rope_theta_bits) <= 0 {
        Some(Error::RopeTheta { theta: config.rope_theta_text }.text())
    } else if sequence_length * (rotary_dim / 2) > usize::MAX {
        Some(Error::RopeOverflow.text())
    } else {
        None
    }
}

/// The layout of one table that every full-attention layer of a forward shares.
#[derive(Clone, Copy, Debug, PartialEq, Eq, Structural)]
pub struct Qwen35TextRopeTable {
    pub sequence_length: usize,
    pub head_dim: usize,
    pub rotary_dim: usize,
    /// The entries of the table: a sine and a cosine for each token and pair.
    pub table_len: usize,
    pub start_pos: u32,
}

impl Qwen35TextRopeTable {
    /// The rotary part is even, not empty and within a head.
    pub open spec fn is_valid(self) -> bool {
        &&& 0 < self.sequence_length
        &&& 0 < self.rotary_dim <= self.head_dim
        &&& self.rotary_dim % 2 == 0
        &&& self.table_len == self.sequence_length * (self.rotary_dim / 2)
    }

    /// Lays out the table of a forward.
    pub fn new(config: &Qwen35TextConfig, sequence_length: usize, start_pos: u32) -> (r: Result<
        Qwen35TextRopeTable,
        Error,
    >)
        ensures
            answers(r, rope_fault(*config, sequence_length)),
            r matches Ok(table) ==> {
                &&& table.is_valid()
                &&& table.sequence_length == sequence_length
                &&& table.head_dim == config.head_dim
                &&& table.rotary_dim == config.rotary_dim
                &&& table.start_pos == start_pos
            },
    {
        let head_dim: usize = config.head_dim;
        let rotary_dim: usize = config.rotary_dim;
        if sequence_length == 0 {
            return Err(Error::RopeEmpty);
        }
        if rotary_dim == 0 || rotary_dim > head_dim || rotary_dim % 2 != 0 {
            return Err(Error::RopeDimension { rotary_dim, head_dim });
        }
        if !finite(config.rope_theta_bits) || !greater(config.rope_theta_bits, 0) {
            return Err(Error::RopeTheta { theta: config.rope_theta_text.clone() });
        }
        match sequence_length.checked_mul(rotary_dim / 2) {
            None => Err(Error::RopeOverflow),
            Some(table_len) => Ok(
                Qwen35TextRopeTable { sequence_length, head_dim, rotary_dim, table_len, start_pos },
            ),
        }
    }

    /// What stops a tensor from being rotated.
    pub open spec fn input_fault(self, tensor: Tensor, heads: usize) -> Fault {
        if tensor.dims() != seq![self.sequence_length, heads, self.head_dim] {
            Some(
                rope_shape_text(
                    self.sequence_length as int,
                    heads as int,
                    self.head_dim as int,
                    tensor.dims(),
                ),
            )
        } else if tensor.element_type() != DType::F32 {
            Some(Error::NotF32 { dtype: tensor.element_type().name() }.text())
        } else {
            None
        }
    }

    /// Checks a tensor that is to be rotated.
    pub fn check_input(&self, tensor: &Tensor, heads: usize) -> (r: Result<(), Error>)
        ensures
            answers(r, self.input_fault(*tensor, heads)),
    {
        let expected: [usize; 3] = [self.sequence_length, heads, self.head_dim];
        proof {
            assert(expected@ =~= seq![self.sequence_length, heads, self.head_dim]);
        }
        if !tensor.has_shape(expected.as_slice()) {
            return Err(
                Error::RopeShape {
                    sequence_length: self.sequence_length,
                    heads,
                    head_dim: self.head_dim,
                    got: copy_dims(tensor.shape().as_slice()),
                },
            );
        }
        match tensor.as_f32() {
            Ok(_) => Ok(()),
            Err(e) => Err(e),
        }
    }

    /// The entry of the table for a pair of a token, and the two elements that it
    /// turns.
    pub open spec fn places(self, heads: usize, token: usize, head: usize, pair: usize) -> (
        int,
        int,
        int,
    ) {
        let half = self.rotary_dim as int / 2;
        let first = (token * heads + head) * self.head_dim + pair;
        (token * half + pair, first, first + half)
    }

    /// The angle of a pair is at `entry` of the table; the rotation turns the
    /// elements at `first` and `second`. Both lie within the tensor, `second`
    /// half the rotary width behind `first`.
    pub fn pair(&self, elements: usize, heads: usize, token: usize, head: usize, pair: usize) -> (r:
        (usize, usize, usize))
        requires
            self.is_valid(),
            elements == self.sequence_length * heads * self.head_dim,
            token < self.sequence_length,
            head < heads,
            pair < self.rotary_dim / 2,
        ensures
            r.0 == token * (self.rotary_dim / 2) + pair,
            r.0 < self.table_len,
            r.1 == (token * heads + head) * self.head_dim + pair,
            r.2 == r.1 + self.rotary_dim / 2,
            r.2 < elements,
            (r.0 as int, r.1 as int, r.2 as int) == self.places(heads, token, head, pair),
    {
        let pairs: usize = self.rotary_dim / 2;
        let ghost row = token * heads + head;
        proof {
            lemma_mul_inequality(token + 1, self.sequence_length as int, pairs as int);
            lemma_mul_is_distributive_add_other_way(pairs as int, token as int, 1);
            lemma_mul_inequality(token + 1, self.sequence_length as int, heads as int);
            lemma_mul_is_distributive_add_other_way(heads as int, token as int, 1);
            lemma_mul_inequality(row + 1, self.sequence_length * heads, self.head_dim as int);
            lemma_mul_is_distributive_add_other_way(self.head_dim as int, row, 1);
            assert(row <= row * self.head_dim) by (nonlinear_arith)
                requires
                    0 <= row,
                    self.head_dim >= 1,
            ;
            assert(token * heads >= 0) by (nonlinear_arith);
            assert(token * pairs >= 0) by (nonlinear_arith);
        }
        let base: usize = (token * heads + head) * self.head_dim;
        (token * pairs + pair, base + pair, base + pairs + pair)
    }
}

/// Two different rotations of a tensor turn different elements.
pub proof fn rotations_do_not_overlap(
    table: Qwen35TextRopeTable,
    heads: int,
    token: int,
    head: int,
    pair: int,
    other_token: int,
    other_head: int,
    other_pair: int,
)
    requires
        table.is_valid(),
        0 <= token,
        0 <= other_token,
        0 <= head < heads,
        0 <= other_head < heads,
        0 <= pair < table.rotary_dim / 2,
        0 <= other_pair < table.rotary_dim / 2,
        (token, head, pair) != (other_token, other_head, other_pair),
    ensures
        ({
            let half = table.rotary_dim / 2;
            let first = (token * heads + head) * table.head_dim + pair;
            let other = (other_token * heads + other_head) * table.head_dim + other_pair;
            &&& first != other
            &&& first + half != other
            &&& first != other + half
        }),
{
    let row = token * heads + head;
    let other_row = other_token * heads + other_head;
    if row == other_row {
        if token < other_token {
            assert((token + 1) * heads <= other_token * heads) by (nonlinear_arith)
                requires
                    token + 1 <= other_token,
                    heads >= 0,
            ;
            lemma_mul_is_distributive_add_other_way(heads, token, 1);
        } else if other_token < token {
            assert((other_token + 1) * heads <= token * heads) by (nonlinear_arith)
                requires
                    other_token + 1 <= token,
                    heads >= 0,
            ;
            lemma_mul_is_distributive_add_other_way(heads, other_token, 1);
        }
    } else if row < other_row {
        assert((row + 1) * table.head_dim <= other_row * table.head_dim) by (nonlinear_arith)
            requires
                row + 1 <= other_row,
                table.head_dim >= 0,
        ;
        lemma_mul_is_distributive_add_other_way(table.head_dim as int, row, 1);
    } else {
        assert((other_row + 1) * table.head_dim <= row * table.head_dim) by (nonlinear_arith)
            requires
                other_row + 1 <= row,
                table.head_dim >= 0,
        ;
        lemma_mul_is_distributive_add_other_way(table.head_dim as int, other_row, 1);
    }
}

} // verus!
