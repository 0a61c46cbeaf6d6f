//! Weight layouts: widening, transposing, de-interleaving and slicing.

use vstd::prelude::*;

use crate::error::{
    answers, conv_rows_shape_text, gated_query_shape_text, transpose_rows_shape_text, Error, Fault,
};
use crate::tensor::{
    copy_dims, product, product_of_three, product_of_two, DType, Device, Tensor,
};

verus! {

/// The element in row `r` and column `c` of a row-major matrix.
pub open spec fn at(data: Seq<u32>, width: int, r: int, c: int) -> u32 {
    data[r * width + c]
}

/// What stops a tensor from being read as 32-bit floats.
pub open spec fn f32_fault(tensor: Tensor, label: &'static str) -> Fault {
    if tensor.place() != Device::Cpu {
        Some(Error::NotOnCpuBeforePacking { label }.text())
    } else if !tensor.element_type().is_float() {
        Some(Error::UnsupportedDtype { label, dtype: tensor.element_type().name() }.text())
    } else {
        None
    }
}

/// Reads a CPU tensor as 32-bit floats.
pub fn f32_values(tensor: &Tensor, label: &'static str) -> (r: Result<Vec<u32>, Error>)
    ensures
        answers(r, f32_fault(*tensor, label)),
        r matches Ok(values) ==> values@ == tensor.floats() && values@.len() == product(
            tensor.dims(),
        ),
{
    if tensor.device() != Device::Cpu {
        return Err(Error::NotOnCpuBeforePacking { label });
    }
    if tensor.dtype() == DType::I8 {
        return Err(Error::UnsupportedDtype { label, dtype: tensor.dtype().as_str() });
    }
    tensor.to_f32_vec()
}

/// What stops a tensor from being turned into a 32-bit float tensor.
pub open spec fn cpu_f32_fault(tensor: Tensor, label: &'static str) -> Fault {
    if tensor.place() != Device::Cpu {
        Some(Error::NotOnCpu { label }.text())
    } else if !tensor.element_type().is_float() {
        Some(Error::NotF32 { dtype: tensor.element_type().name() }.text())
    } else {
        None
    }
}

/// Turns a CPU tensor into one of 32-bit floats, of the same shape.
pub fn into_cpu_f32(tensor: Tensor, label: &'static str) -> (r: Result<Tensor, Error>)
    ensures
        answers(r, cpu_f32_fault(tensor, label)),
        r matches Ok(t) ==> t.is_f32(tensor.dims(), tensor.floats()),
{
    if tensor.device() != Device::Cpu {
        return Err(Error::NotOnCpu { label });
    }
    if tensor.dtype() == DType::F32 {
        return Ok(tensor);
    }
    let shape = copy_dims(tensor.shape().as_slice());
    match tensor.to_f32_vec() {
        Ok(values) => Tensor::from_f32(shape, values),
        Err(e) => Err(e),
    }
}

/// The matrix holds column `i` of the selected rows of `source` as its row `i`.
pub open spec fn gathers(
    result: Seq<u32>,
    source: Seq<u32>,
    rows: Seq<usize>,
    cols: int,
) -> bool {
    &&& result.len() == cols * rows.len()
    &&& forall|i: int, o: int|
        0 <= i < cols && 0 <= o < rows.len() ==> #[trigger] at(result, rows.len() as int, i, o)
            == at(source, cols, rows[o] as int, i)
}

proof fn cells_are_ordered(width: int, r: int, c: int, r2: int, c2: int)
    requires
        0 <= c < width,
        0 <= c2,
        0 <= r < r2 || (0 <= r == r2 && c < c2),
    ensures
        0 <= r * width + c < r2 * width + c2,
{
    assert(0 <= r * width) by (nonlinear_arith)
        requires
            0 <= r,
            0 <= width,
    ;
    if r < r2 {
        assert((r + 1) * width <= r2 * width) by (nonlinear_arith)
            requires
                r + 1 <= r2,
                0 <= width,
        ;
        assert((r + 1) * width == r * width + width) by (nonlinear_arith);
    }
}

proof fn cell_is_inside(width: int, height: int, r: int, c: int)
    requires
        0 <= c < width,
        0 <= r < height,
    ensures
        0 <= r * width + c < height * width,
{
    cells_are_ordered(width, r, c, height, 0);
}

/// Transposes the selected rows of a matrix.
pub(crate) fn gather_rows(
    source: &Vec<u32>,
    rows: &Vec<usize>,
    cols: usize,
    Ghost(height): Ghost<int>,
) -> (r:
    Vec<u32>)
    requires
        source@.len() == height * cols,
        forall|o: int| 0 <= o < rows@.len() ==> (#[trigger] rows@[o]) < height,
        cols * rows@.len() <= usize::MAX,
    ensures
        gathers(r@, source@, rows@, cols as int),
{
    let n: usize = rows.len();
    let total: usize = source.len();
    let mut out: Vec<u32> = Vec::with_capacity(cols * n);
    let mut input: usize = 0;
    while input < cols
        invariant
            input <= cols,
            total == source@.len(),
            n == rows@.len(),
            source@.len() == height * cols,
            forall|o: int| 0 <= o < rows@.len() ==> (#[trigger] rows@[o]) < height,
            out@.len() == input * n,
            forall|i: int, o: int|
                0 <= i < input && 0 <= o < n ==> #[trigger] at(out@, n as int, i, o) == at(
                    source@,
                    cols as int,
                    rows@[o] as int,
                    i,
                ),
        decreases cols - input,
    {
        let mut index: usize = 0;
        while index < n
            invariant
                input < cols,
                index <= n,
                total == source@.len(),
                n == rows@.len(),
                source@.len() == height * cols,
                forall|o: int| 0 <= o < rows@.len() ==> (#[trigger] rows@[o]) < height,
                out@.len() == input * n + index,
                forall|i: int, o: int|
                    0 <= o < n && (0 <= i < input || (i == input && o < index)) ==> #[trigger] at(
                        out@,
                        n as int,
                        i,
                        o,
                    ) == at(source@, cols as int, rows@[o] as int, i),
            decreases n - index,
        {
            let row: usize = rows[index];
            proof {
                cell_is_inside(cols as int, height, row as int, input as int);
                assert(row * cols <= row * cols + input);
                assert(0 <= row * cols) by (nonlinear_arith);
            }
            let ghost before = out@;
            out.push(source[row * cols + input]);
            proof {
                assert forall|i: int, o: int|
                    0 <= o < n && (0 <= i < input || (i == input && o < index + 1)) implies #[trigger] at(
                    out@,
                    n as int,
                    i,
                    o,
                ) == at(source@, cols as int, rows@[o] as int, i) by {
                    if i == input && o == index {
                        assert(i * n + o == before.len());
                    } else {
                        cells_are_ordered(n as int, i, o, input as int, index as int);
                        assert(at(before, n as int, i, o) == at(
                            source@,
                            cols as int,
                            rows@[o] as int,
                            i,
                        ));
                    }
                }
            }
            index = index + 1;
        }
        proof {
            assert((input + 1) * n == input * n + n) by (nonlinear_arith);
        }
        input = input + 1;
    }
    out
}

/// The rows `row_start..row_start + row_count`.
pub open spec fn row_range(row_start: int, row_count: int) -> Seq<usize> {
    Seq::new(row_count as nat, |o: int| (row_start + o) as usize)
}

/// What stops rows of a matrix from being transposed.
pub open spec fn transpose_rows_fault(
    tensor: Tensor,
    row_start: int,
    row_count: int,
    expected_input: int,
) -> Fault {
    let row_end = if row_start + row_count > usize::MAX {
        usize::MAX as int
    } else {
        row_start + row_count
    };
    if tensor.dims().len() != 2 || tensor.dims()[1] != expected_input || row_start + row_count
        > tensor.dims()[0] {
        Some(transpose_rows_shape_text(row_start, row_end, expected_input, tensor.dims()))
    } else {
        f32_fault(tensor, "linear weight")
    }
}

/// The tensor is the transpose of `row_count` rows of a matrix.
pub open spec fn is_transposed(
    out: Tensor,
    tensor: Tensor,
    row_start: int,
    row_count: int,
    expected_input: int,
) -> bool {
    &&& out.dims() == seq![expected_input as usize, row_count as usize]
    &&& out.element_type() == DType::F32
    &&& out.place() == Device::Cpu
    &&& gathers(
        out.data(),
        tensor.floats(),
        row_range(row_start, row_count),
        expected_input,
    )
}

/// Selects a contiguous range of output rows of an `[out, in]` matrix and
/// transposes it to `[in, selected_out]`.
pub fn transpose_rows(
    tensor: &Tensor,
    row_start: usize,
    row_count: usize,
    expected_input: usize,
) -> (r: Result<Tensor, Error>)
    ensures
        answers(
            r,
            transpose_rows_fault(
                *tensor,
                row_start as int,
                row_count as int,
                expected_input as int,
            ),
        ),
        r matches Ok(out) ==> is_transposed(
            out,
            *tensor,
            row_start as int,
            row_count as int,
            expected_input as int,
        ),
{
    let dims = tensor.shape();
    let row_end: usize = row_start.saturating_add(row_count);
    if dims.len() != 2 || dims[1] != expected_input || row_start.checked_add(row_count).is_none()
        || row_end > dims[0] {
        return Err(
            Error::TransposeRowsShape {
                row_start,
                row_end,
                expected_input,
                got: copy_dims(dims.as_slice()),
            },
        );
    }
    let source = match f32_values(tensor, "linear weight") {
        Ok(values) => values,
        Err(e) => return Err(e),
    };
    let total: usize = source.len();
    let ghost height = tensor.dims()[0] as int;
    proof {
        product_of_two(tensor.dims()[0], expected_input);
        assert(tensor.dims() =~= seq![tensor.dims()[0], expected_input]);
        assert(expected_input * row_count <= height * expected_input) by (nonlinear_arith)
            requires
                row_count <= height,
        ;
    }
    let mut rows: Vec<usize> = Vec::with_capacity(row_count);
    let mut o: usize = 0;
    while o < row_count
        invariant
            o <= row_count,
            row_start + row_count <= usize::MAX,
            rows@ == row_range(row_start as int, o as int),
        decreases row_count - o,
    {
        rows.push(row_start + o);
        proof {
            assert(rows@ =~= row_range(row_start as int, o + 1));
        }
        o = o + 1;
    }
    let out = gather_rows(&source, &rows, expected_input, Ghost(height));
    let shape: Vec<usize> = vec![expected_input, row_count];
    proof {
        product_of_two(expected_input, row_count);
        assert(shape@ =~= seq![expected_input, row_count]);
    }
    Tensor::from_f32(shape, out)
}

/// The rows of the query heads: head `h` starts at row `2 * h * head_dim`.
pub open spec fn query_rows(rows: Seq<usize>, heads: int, head_dim: int, offset: int) -> bool {
    &&& rows.len() == heads * head_dim
    &&& forall|head: int, dim: int|
        0 <= head < heads && 0 <= dim < head_dim ==> #[trigger] row_at(rows, head_dim, head, dim)
            == head * 2 * head_dim + offset + dim
}

/// The row that is listed for one dimension of one head.
pub open spec fn row_at(rows: Seq<usize>, head_dim: int, head: int, dim: int) -> usize {
    rows[head * head_dim + dim]
}

fn list_query_rows(heads: usize, head_dim: usize, offset: usize) -> (rows: Vec<usize>)
    requires
        heads * head_dim * 2 <= usize::MAX,
        offset == 0 || offset == head_dim,
    ensures
        query_rows(rows@, heads as int, head_dim as int, offset as int),
        forall|o: int|
            0 <= o < rows@.len() ==> (#[trigger] rows@[o]) < heads * head_dim * 2,
{
    let mut rows: Vec<usize> = Vec::new();
    let mut head: usize = 0;
    while head < heads
        invariant
            head <= heads,
            heads * head_dim * 2 <= usize::MAX,
            offset == 0 || offset == head_dim,
            rows@.len() == head * head_dim,
            forall|h: int, d: int|
                0 <= h < head && 0 <= d < head_dim ==> #[trigger] row_at(
                    rows@,
                    head_dim as int,
                    h,
                    d,
                ) == h * 2 * head_dim + offset + d,
            forall|o: int|
                0 <= o < rows@.len() ==> (#[trigger] rows@[o]) < heads * head_dim * 2,
        decreases heads - head,
    {
        let mut dim: usize = 0;
        while dim < head_dim
            invariant
                head < heads,
                dim <= head_dim,
                heads * head_dim * 2 <= usize::MAX,
                offset == 0 || offset == head_dim,
                rows@.len() == head * head_dim + dim,
                forall|h: int, d: int|
                    0 <= d < head_dim && (0 <= h < head || (h == head && d < dim)) ==> #[trigger] row_at(
                        rows@,
                        head_dim as int,
                        h,
                        d,
                    ) == h * 2 * head_dim + offset + d,
                forall|o: int|
                    0 <= o < rows@.len() ==> (#[trigger] rows@[o]) < heads * head_dim * 2,
            decreases head_dim - dim,
        {
            proof {
                assert(head * 2 * head_dim + 2 * head_dim <= heads * head_dim * 2)
                    by (nonlinear_arith)
                    requires
                        head + 1 <= heads,
                ;
                assert(0 <= head * 2 * head_dim) by (nonlinear_arith);
                assert(head * 2 <= head * 2 * head_dim) by (nonlinear_arith)
                    requires
                        head_dim >= 1,
                ;
            }
            let ghost before = rows@;
            rows.push(head * 2 * head_dim + offset + dim);
            proof {
                assert forall|h: int, d: int|
                    0 <= d < head_dim && (0 <= h < head || (h == head && d < dim + 1)) implies #[trigger] row_at(
                    rows@,
                    head_dim as int,
                    h,
                    d,
                ) == h * 2 * head_dim + offset + d by {
                    if h == head && d == dim {
                        assert(h * head_dim + d == before.len());
                    } else {
                        cells_are_ordered(head_dim as int, h, d, head as int, dim as int);
                        assert(row_at(before, head_dim as int, h, d) == h * 2 * head_dim + offset
                            + d);
                    }
                }
            }
            dim = dim + 1;
        }
        proof {
            assert((head + 1) * head_dim == head * head_dim + head_dim) by (nonlinear_arith);
        }
        head = head + 1;
    }
    rows
}

/// What stops a gated query projection from being taken apart.
pub open spec fn gated_query_fault(
    tensor: Tensor,
    heads: int,
    head_dim: int,
    hidden_size: int,
) -> Fault {
    let rows = heads * head_dim * 2;
    if rows > usize::MAX {
        Some(Error::GatedQueryOverflow.text())
    } else if tensor.dims() != seq![rows as usize, hidden_size as usize] {
        Some(gated_query_shape_text(rows, hidden_size, tensor.dims()))
    } else {
        f32_fault(tensor, "gated q_proj")
    }
}

/// The tensor holds one half of a gated query projection, transposed: column
/// `head * head_dim + dim` is row `head * 2 * head_dim + offset + dim` of the
/// projection.
pub open spec fn is_query_half(
    out: Tensor,
    tensor: Tensor,
    heads: int,
    head_dim: int,
    hidden_size: int,
    offset: int,
) -> bool {
    let width = heads * head_dim;
    &&& out.dims() == seq![hidden_size as usize, width as usize]
    &&& out.element_type() == DType::F32
    &&& out.place() == Device::Cpu
    &&& out.data().len() == hidden_size * width
    &&& forall|input: int, head: int, dim: int|
        0 <= input < hidden_size && 0 <= head < heads && 0 <= dim < head_dim
            ==> #[trigger] query_cell(out.data(), width, head_dim, input, head, dim) == at(
            tensor.floats(),
            hidden_size,
            head * 2 * head_dim + offset + dim,
            input,
        )
}

/// The element of one input for one dimension of one head.
pub open spec fn query_cell(
    data: Seq<u32>,
    width: int,
    head_dim: int,
    input: int,
    head: int,
    dim: int,
) -> u32 {
    at(data, width, input, head * head_dim + dim)
}

fn query_half(
    source: &Vec<u32>,
    tensor: &Tensor,
    heads: usize,
    head_dim: usize,
    hidden_size: usize,
    offset: usize,
) -> (r: Result<Tensor, Error>)
    requires
        heads * head_dim * 2 <= usize::MAX,
        offset == 0 || offset == head_dim,
        tensor.dims() == seq![(heads * head_dim * 2) as usize, hidden_size],
        source@ == tensor.floats(),
        source@.len() == product(tensor.dims()),
        source@.len() <= usize::MAX,
    ensures
        r matches Ok(out) && is_query_half(
            out,
            *tensor,
            heads as int,
            head_dim as int,
            hidden_size as int,
            offset as int,
        ),
{
    let rows = list_query_rows(heads, head_dim, offset);
    let ghost height = heads * head_dim * 2;
    proof {
        assert(0 <= heads * head_dim) by (nonlinear_arith);
        product_of_two(height as usize, hidden_size);
        assert(hidden_size * rows@.len() <= height * hidden_size) by (nonlinear_arith)
            requires
                rows@.len() <= height,
        ;
    }
    let data = gather_rows(source, &rows, hidden_size, Ghost(height));
    let width: usize = heads * head_dim;
    let shape: Vec<usize> = vec![hidden_size, width];
    proof {
        product_of_two(hidden_size, width);
        assert(shape@ =~= seq![hidden_size, width]);
        assert forall|input: int, head: int, dim: int|
            0 <= input < hidden_size && 0 <= head < heads && 0 <= dim
                < head_dim implies #[trigger] query_cell(
            data@,
            width as int,
            head_dim as int,
            input,
            head,
            dim,
        ) == at(
            tensor.floats(),
            hidden_size as int,
            head * 2 * head_dim + offset + dim,
            input,
        ) by {
            cell_is_inside(head_dim as int, heads as int, head, dim);
            let o = head * head_dim + dim;
            assert(row_at(rows@, head_dim as int, head, dim) == head * 2 * head_dim + offset + dim);
            assert(at(data@, rows@.len() as int, input, o) == at(
                source@,
                hidden_size as int,
                rows@[o] as int,
                input,
            ));
        }
    }
    Tensor::from_f32(shape, data)
}

/// Takes a gated query projection apart. Its rows lie head by head as the
/// query and then its gate, so that splitting it in two halves
/// would be wrong.
pub fn transpose_interleaved_q_gate(
    tensor: &Tensor,
    heads: usize,
    head_dim: usize,
    hidden_size: usize,
) -> (r: Result<(Tensor, Tensor), Error>)
    ensures
        answers(
            r,
            gated_query_fault(*tensor, heads as int, head_dim as int, hidden_size as int),
        ),
        r matches Ok(pair) ==> is_query_half(
            pair.0,
            *tensor,
            heads as int,
            head_dim as int,
            hidden_size as int,
            0,
        ) && is_query_half(
            pair.1,
            *tensor,
            heads as int,
            head_dim as int,
            hidden_size as int,
            head_dim as int,
        ),
{
    proof {
        assert(0 <= heads * head_dim) by (nonlinear_arith);
    }
    let width: usize = match heads.checked_mul(head_dim) {
        Some(width) => width,
        None => return Err(Error::GatedQueryOverflow),
    };
    let rows: usize = match width.checked_mul(2) {
        Some(rows) => rows,
        None => return Err(Error::GatedQueryOverflow),
    };
    let expected: [usize; 2] = [rows, hidden_size];
    proof {
        assert(expected@ =~= seq![rows, hidden_size]);
    }
    if !tensor.has_shape(expected.as_slice()) {
        return Err(
            Error::GatedQueryShape {
                rows,
                hidden_size,
                got: copy_dims(tensor.shape().as_slice()),
            },
        );
    }
    let source = match f32_values(tensor, "gated q_proj") {
        Ok(values) => values,
        Err(e) => return Err(e),
    };
    let total: usize = source.len();
    let query = match query_half(&source, tensor, heads, head_dim, hidden_size, 0) {
        Ok(query) => query,
        Err(e) => return Err(e),
    };
    let gate = match query_half(&source, tensor, heads, head_dim, hidden_size, head_dim) {
        Ok(gate) => gate,
        Err(e) => return Err(e),
    };
    Ok((query, gate))
}

/// What stops rows of a convolution weight from being sliced.
pub open spec fn conv_rows_fault(
    tensor: Tensor,
    row_start: int,
    row_count: int,
    kernel_size: int,
) -> Fault {
    let row_end = if row_start + row_count > usize::MAX {
        usize::MAX as int
    } else {
        row_start + row_count
    };
    if tensor.dims().len() != 3 || tensor.dims()[1] != 1 || tensor.dims()[2] != kernel_size
        || row_start + row_count > tensor.dims()[0] {
        Some(conv_rows_shape_text(row_start, row_end, kernel_size, tensor.dims()))
    } else {
        f32_fault(tensor, "depthwise convolution weight")
    }
}

/// The tensor holds `row_count` rows of a convolution weight.
pub open spec fn is_conv_slice(
    out: Tensor,
    tensor: Tensor,
    row_start: int,
    row_count: int,
    kernel_size: int,
) -> bool {
    out.is_f32(
        seq![row_count as usize, 1usize, kernel_size as usize],
        tensor.floats().subrange(row_start * kernel_size, (row_start + row_count) * kernel_size),
    )
}

/// Selects a contiguous range of rows of a `[rows, 1, kernel]` weight.
pub fn slice_conv_rows(
    tensor: &Tensor,
    row_start: usize,
    row_count: usize,
    kernel_size: usize,
) -> (r: Result<Tensor, Error>)
    ensures
        answers(
            r,
            conv_rows_fault(*tensor, row_start as int, row_count as int, kernel_size as int),
        ),
        r matches Ok(out) ==> is_conv_slice(
            out,
            *tensor,
            row_start as int,
            row_count as int,
            kernel_size as int,
        ),
{
    let dims = tensor.shape();
    let row_end: usize = row_start.saturating_add(row_count);
    if dims.len() != 3 || dims[1] != 1 || dims[2] != kernel_size || row_start.checked_add(
        row_count,
    ).is_none() || row_end > dims[0] {
        return Err(
            Error::ConvRowsShape {
                row_start,
                row_end,
                kernel_size,
                got: copy_dims(dims.as_slice()),
            },
        );
    }
    let source = match f32_values(tensor, "depthwise convolution weight") {
        Ok(values) => values,
        Err(e) => return Err(e),
    };
    let total: usize = source.len();
    let ghost height = tensor.dims()[0] as int;
    proof {
        product_of_three(tensor.dims()[0], 1, kernel_size);
        assert(tensor.dims() =~= seq![tensor.dims()[0], 1usize, kernel_size]);
        assert(row_start * kernel_size + row_count * kernel_size <= height * 1 * kernel_size && 0
            <= row_start * kernel_size && 0 <= row_count * kernel_size && (row_start + row_count)
            * kernel_size == row_start * kernel_size + row_count * kernel_size)
            by (nonlinear_arith)
            requires
                row_start + row_count <= height,
                0 <= row_start,
                0 <= row_count,
                0 <= kernel_size,
        ;
    }
    let start: usize = row_start * kernel_size;
    let count: usize = row_count * kernel_size;
    let mut values: Vec<u32> = Vec::with_capacity(count);
    let mut i: usize = 0;
    while i < count
        invariant
            i <= count,
            start + count <= source@.len(),
            source@.len() <= usize::MAX,
            values@ == source@.subrange(start as int, start + i),
        decreases count - i,
    {
        values.push(source[start + i]);
        proof {
            assert(values@ =~= source@.subrange(start as int, start + i + 1));
        }
        i = i + 1;
    }
    let shape: Vec<usize> = vec![row_count, 1, kernel_size];
    proof {
        product_of_three(row_count, 1, kernel_size);
        assert(shape@ =~= seq![row_count, 1usize, kernel_size]);
        assert(row_count * 1 * kernel_size == row_count * kernel_size) by (nonlinear_arith);
    }
    Tensor::from_f32(shape, values)
}

/// Transposing twice gives back the matrix.
pub proof fn transpose_is_an_involution(
    source: Seq<u32>,
    once: Seq<u32>,
    twice: Seq<u32>,
    height: int,
    width: int,
)
    requires
        0 <= height <= usize::MAX,
        0 <= width <= usize::MAX,
        source.len() == height * width,
        gathers(once, source, row_range(0, height), width),
        gathers(twice, once, row_range(0, width), height),
    ensures
        twice == source,
{
    assert(twice.len() == source.len()) by {
        assert(height * width == width * height) by (nonlinear_arith);
    }
    assert forall|k: int| 0 <= k < source.len() implies #[trigger] twice[k] == source[k] by {
        let r = k / width;
        let c = k % width;
        assert(width > 0) by (nonlinear_arith)
            requires
                0 <= k < height * width,
                0 <= width,
        ;
        assert(k == r * width + c && 0 <= c < width && 0 <= r < height) by (nonlinear_arith)
            requires
                0 <= k < height * width,
                width > 0,
                r == k / width,
                c == k % width,
        ;
        assert(at(twice, width, r, c) == at(once, height, row_range(0, width)[c] as int, r));
        assert(at(once, height, c, r) == at(source, width, row_range(0, height)[r] as int, c));
    }
    assert(twice =~= source);
}

} // verus!
