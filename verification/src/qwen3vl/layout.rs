//! How the weights of both towers are laid out for row-major products.

use vstd::prelude::*;

use crate::error::{answers, either, missing_weight_text, Error, Fault};
use crate::names::NameMap;
use crate::qwen35::packing::{gather_rows, gathers, row_range};
use crate::tensor::{product, product_of_two, DType, Device, Tensor};

verus! {

/// The tower that a weight belongs to; messages tell it.
#[derive(Clone, Copy, Debug, PartialEq, Eq, Structural)]
pub enum Tower {
    Text,
    Vision,
}

/// The element type is one that both towers are stored in.
pub open spec fn is_stored(dtype: DType) -> bool {
    dtype == DType::F32 || dtype == DType::BF16
}

/// Why a weight cannot be transposed.
pub open spec fn transpose_fault(tensor: Tensor, tower: Tower) -> Fault {
    let rank = tensor.dims().len() as usize;
    let dtype = tensor.element_type().name();
    if tensor.dims().len() != 2 {
        match tower {
            Tower::Text => Some(Error::TransposeRank { rank }.text()),
            Tower::Vision => Some(Error::VisionTransposeRank { rank }.text()),
        }
    } else if !is_stored(tensor.element_type()) {
        match tower {
            Tower::Text => Some(Error::TransposeDtype { dtype }.text()),
            Tower::Vision => Some(Error::VisionTransposeDtype { dtype }.text()),
        }
    } else {
        None
    }
}

/// The tensor is the transpose of a matrix.
pub open spec fn is_transpose(out: Tensor, tensor: Tensor) -> bool {
    &&& out.dims() == seq![tensor.dims()[1], tensor.dims()[0]]
    &&& out.element_type() == tensor.element_type()
    &&& out.place() == Device::Cpu
    &&& gathers(
        out.data(),
        tensor.data(),
        row_range(0, tensor.dims()[0] as int),
        tensor.dims()[1] as int,
    )
}

/// Transposes an `[out, in]` weight to `[in, out]`.
pub fn transpose_2d(tensor: &Tensor, tower: Tower) -> (r: Result<Tensor, Error>)
    ensures
        answers(r, transpose_fault(*tensor, tower)),
        r matches Ok(out) ==> is_transpose(out, *tensor),
{
    let dims = tensor.shape();
    let dtype = tensor.dtype();
    if dims.len() != 2 {
        return Err(
            match tower {
                Tower::Text => Error::TransposeRank { rank: dims.len() },
                Tower::Vision => Error::VisionTransposeRank { rank: dims.len() },
            },
        );
    }
    if dtype != DType::F32 && dtype != DType::BF16 {
        return Err(
            match tower {
                Tower::Text => Error::TransposeDtype { dtype: dtype.as_str() },
                Tower::Vision => Error::VisionTransposeDtype { dtype: dtype.as_str() },
            },
        );
    }
    let height: usize = dims[0];
    let width: usize = dims[1];
    let source = tensor.elements();
    let total: usize = source.len();
    proof {
        product_of_two(height, width);
        assert(tensor.dims() =~= seq![height, width]);
        assert(width * height == height * width) by (nonlinear_arith);
    }
    let mut rows: Vec<usize> = Vec::with_capacity(height);
    let mut o: usize = 0;
    while o < height
        invariant
            o <= height,
            rows@ == row_range(0, o as int),
        decreases height - o,
    {
        rows.push(o);
        proof {
            assert(rows@ =~= row_range(0, o + 1));
        }
        o = o + 1;
    }
    let out = gather_rows(source, &rows, width, Ghost(height as int));
    let shape: Vec<usize> = vec![width, height];
    proof {
        product_of_two(width, height);
        assert(shape@ =~= seq![width, height]);
        assert(total == height * width);
    }
    Tensor::new(shape, dtype, Device::Cpu, out)
}

/// Why a weight cannot be read as a matrix.
pub open spec fn reshape_fault(tensor: Tensor, rows: int, cols: int) -> Fault {
    if product(tensor.dims()) != rows * cols {
        Some(
            Error::VisionReshapeCount {
                elements: product(tensor.dims()) as usize,
                rows: rows as usize,
                cols: cols as usize,
            }.text(),
        )
    } else if !is_stored(tensor.element_type()) {
        Some(Error::VisionReshapeDtype { dtype: tensor.element_type().name() }.text())
    } else {
        None
    }
}

/// Reads a weight of any rank as a matrix with the same elements.
pub fn reshape_5d_to_2d(tensor: &Tensor, rows: usize, cols: usize) -> (r: Result<Tensor, Error>)
    requires
        rows * cols <= usize::MAX,
    ensures
        answers(r, reshape_fault(*tensor, rows as int, cols as int)),
        r matches Ok(out) ==> {
            &&& out.dims() == seq![rows, cols]
            &&& out.element_type() == tensor.element_type()
            &&& out.place() == Device::Cpu
            &&& out.data() == tensor.data()
        },
{
    let dtype = tensor.dtype();
    let source = tensor.elements();
    if source.len() != rows * cols {
        return Err(Error::VisionReshapeCount { elements: source.len(), rows, cols });
    }
    if dtype != DType::F32 && dtype != DType::BF16 {
        return Err(Error::VisionReshapeDtype { dtype: dtype.as_str() });
    }
    let shape: Vec<usize> = vec![rows, cols];
    proof {
        product_of_two(rows, cols);
        assert(shape@ =~= seq![rows, cols]);
    }
    Tensor::new(shape, dtype, Device::Cpu, tensor.copy().into_elements())
}

/// Why a weight cannot be taken as it is stored.
pub open spec fn plain_fault(tensors: Map<Seq<char>, Tensor>, name: Seq<char>) -> Fault {
    if tensors.contains_key(name) {
        None
    } else {
        Some(missing_weight_text(name))
    }
}

/// Takes a weight as it is stored.
pub fn plain(tensors: &NameMap<Tensor>, name: &str) -> (r: Result<Tensor, Error>)
    ensures
        answers(r, plain_fault(tensors@, name@)),
        r matches Ok(out) ==> out.same_as(tensors@[name@]),
{
    match tensors.get(name) {
        Some(tensor) => Ok(tensor.copy()),
        None => Err(Error::MissingWeight { name: name.to_owned() }),
    }
}

/// Why a weight cannot be taken transposed.
pub open spec fn matrix_fault(
    tensors: Map<Seq<char>, Tensor>,
    name: Seq<char>,
    tower: Tower,
) -> Fault {
    either(plain_fault(tensors, name), transpose_fault(tensors[name], tower))
}

/// Takes a weight transposed.
pub fn matrix(tensors: &NameMap<Tensor>, name: &str, tower: Tower) -> (r: Result<Tensor, Error>)
    ensures
        answers(r, matrix_fault(tensors@, name@, tower)),
        r matches Ok(out) ==> is_transpose(out, tensors@[name@]),
{
    match tensors.get(name) {
        Some(tensor) => transpose_2d(tensor, tower),
        None => Err(Error::MissingWeight { name: name.to_owned() }),
    }
}

} // verus!
