//! Host tensors: a shape, an element type, a device and the raw elements.

use vstd::prelude::*;
use vstd::string::*;

use crate::error::Error;
use crate::float_bits::{bf16_widened, f16_widened, widen_bf16, widen_f16};
use crate::text::{decimal, push_size};

verus! {

/// Element types. Every element is held in the low bits of a `u32`.
#[derive(Clone, Copy, Debug, PartialEq, Eq, Structural)]
pub enum DType {
    F32,
    F16,
    BF16,
    I8,
}

impl DType {
    /// The name of the element type in messages.
    pub open spec fn name(self) -> &'static str {
        match self {
            DType::F32 => "f32",
            DType::F16 => "f16",
            DType::BF16 => "bf16",
            DType::I8 => "i8",
        }
    }

    /// The element type is one of the three floating types.
    pub open spec fn is_float(self) -> bool {
        self != DType::I8
    }

    /// The name of the element type in messages.
    pub fn as_str(self) -> (text: &'static str)
        ensures
            text == self.name(),
    {
        match self {
            DType::F32 => "f32",
            DType::F16 => "f16",
            DType::BF16 => "bf16",
            DType::I8 => "i8",
        }
    }
}

/// Where a tensor lives.
#[derive(Clone, Copy, Debug, PartialEq, Eq, Structural)]
pub enum Device {
    Cpu,
    Cuda(usize),
}

impl Device {
    /// The name of the device in messages.
    pub open spec fn name(self) -> Seq<char> {
        match self {
            Device::Cpu => "cpu"@,
            Device::Cuda(index) => "cuda:"@ + decimal(index as nat),
        }
    }

    /// The name of the device in messages.
    pub fn label(self) -> (text: String)
        ensures
            text@ == self.name(),
    {
        match self {
            Device::Cpu => "cpu".to_owned(),
            Device::Cuda(index) => {
                let mut text = "cuda:".to_owned();
                push_size(&mut text, index);
                text
            },
        }
    }
}

/// The number of elements of a shape.
pub open spec fn product(dims: Seq<usize>) -> nat
    decreases dims.len(),
{
    if dims.len() == 0 {
        1
    } else {
        product(dims.drop_last()) * dims.last() as nat
    }
}

/// A shape without a zero has at least as many elements as any of its prefixes.
proof fn product_grows(dims: Seq<usize>, n: int)
    requires
        0 <= n <= dims.len(),
        forall|i: int| 0 <= i < dims.len() ==> dims[i] > 0,
    ensures
        1 <= product(dims.take(n)) <= product(dims),
    decreases dims.len() - n,
{
    if n == dims.len() {
        assert(dims.take(n) =~= dims);
        product_is_positive(dims);
    } else {
        product_grows(dims, n + 1);
        let longer = dims.take(n + 1);
        assert(longer.drop_last() =~= dims.take(n));
        product_is_positive(dims.take(n));
        assert(product(dims.take(n)) <= product(dims.take(n)) * dims[n] as nat) by (nonlinear_arith)
            requires
                dims[n] > 0,
        ;
    }
}

proof fn product_is_positive(dims: Seq<usize>)
    requires
        forall|i: int| 0 <= i < dims.len() ==> dims[i] > 0,
    ensures
        product(dims) >= 1,
    decreases dims.len(),
{
    if dims.len() > 0 {
        product_is_positive(dims.drop_last());
        assert(product(dims.drop_last()) * dims.last() as nat >= 1) by (nonlinear_arith)
            requires
                product(dims.drop_last()) >= 1,
                dims.last() > 0,
        ;
    }
}

proof fn product_with_zero(dims: Seq<usize>, i: int)
    requires
        0 <= i < dims.len(),
        dims[i] == 0,
    ensures
        product(dims) == 0,
    decreases dims.len(),
{
    if i < dims.len() - 1 {
        product_with_zero(dims.drop_last(), i);
    }
    assert(product(dims.drop_last()) * dims.last() as nat == 0) by (nonlinear_arith)
        requires
            product(dims.drop_last()) == 0 || dims.last() == 0,
    ;
}

/// The number of elements of a shape of one dimension.
pub proof fn product_of_one(a: usize)
    ensures
        product(seq![a]) == a,
{
    reveal_with_fuel(product, 2);
    assert(seq![a].drop_last() =~= Seq::<usize>::empty());
    assert(1 * a as nat == a) by (nonlinear_arith);
}

/// The number of elements of a shape of two dimensions.
pub proof fn product_of_two(a: usize, b: usize)
    ensures
        product(seq![a, b]) == a * b,
{
    product_of_one(a);
    assert(seq![a, b].drop_last() =~= seq![a]);
}

/// The number of elements of a shape of three dimensions.
pub proof fn product_of_three(a: usize, b: usize, c: usize)
    ensures
        product(seq![a, b, c]) == a * b * c,
{
    product_of_two(a, b);
    assert(seq![a, b, c].drop_last() =~= seq![a, b]);
}

/// Counts the elements of a shape; `None` where the count does not fit.
pub fn element_count(dims: &[usize]) -> (count: Option<usize>)
    ensures
        match count {
            Some(n) => n == product(dims@),
            None => product(dims@) > usize::MAX,
        },
{
    let mut i: usize = 0;
    while i < dims.len()
        invariant
            i <= dims@.len(),
            forall|j: int| 0 <= j < i ==> dims@[j] > 0,
        decreases dims@.len() - i,
    {
        if dims[i] == 0 {
            proof {
                product_with_zero(dims@, i as int);
            }
            return Some(0);
        }
        i = i + 1;
    }
    let mut n: usize = 0;
    let mut count: usize = 1;
    proof {
        assert(dims@.take(0) =~= Seq::<usize>::empty());
    }
    while n < dims.len()
        invariant
            n <= dims@.len(),
            forall|j: int| 0 <= j < dims@.len() ==> dims@[j] > 0,
            count == product(dims@.take(n as int)),
        decreases dims@.len() - n,
    {
        proof {
            assert(dims@.take(n + 1).drop_last() =~= dims@.take(n as int));
            product_grows(dims@, n + 1);
        }
        match count.checked_mul(dims[n]) {
            Some(next) => {
                count = next;
            },
            None => {
                return None;
            },
        }
        n = n + 1;
    }
    proof {
        assert(dims@.take(n as int) =~= dims@);
    }
    Some(count)
}

/// The elements as 32-bit float patterns.
pub open spec fn widened(dtype: DType, elements: Seq<u32>) -> Seq<u32> {
    match dtype {
        DType::F16 => elements.map_values(|bits: u32| f16_widened((bits % 0x1_0000) as u16)),
        DType::BF16 => elements.map_values(|bits: u32| bf16_widened((bits % 0x1_0000) as u16)),
        _ => elements,
    }
}

/// A dense row-major tensor that holds exactly the elements of its shape.
#[derive(Debug, PartialEq, Eq)]
pub struct Tensor {
    shape: Vec<usize>,
    dtype: DType,
    device: Device,
    elements: Vec<u32>,
}

impl Tensor {
    #[verifier::type_invariant]
    spec fn holds_its_shape(self) -> bool {
        self.elements@.len() == product(self.shape@)
    }

    /// The sizes of the dimensions.
    pub closed spec fn dims(self) -> Seq<usize> {
        self.shape@
    }

    /// The element type.
    pub closed spec fn element_type(self) -> DType {
        self.dtype
    }

    /// The device.
    pub closed spec fn place(self) -> Device {
        self.device
    }

    /// The raw elements in row-major order.
    pub closed spec fn data(self) -> Seq<u32> {
        self.elements@
    }

    /// The elements as 32-bit float patterns.
    pub open spec fn floats(self) -> Seq<u32> {
        widened(self.element_type(), self.data())
    }

    /// The tensor is the CPU tensor of these 32-bit float patterns.
    pub open spec fn is_f32(self, dims: Seq<usize>, values: Seq<u32>) -> bool {
        &&& self.dims() == dims
        &&& self.element_type() == DType::F32
        &&& self.place() == Device::Cpu
        &&& self.data() == values
    }

    /// The tensor holds the same as another, in the same shape and place.
    pub open spec fn same_as(self, other: Tensor) -> bool {
        &&& self.dims() == other.dims()
        &&& self.element_type() == other.element_type()
        &&& self.place() == other.place()
        &&& self.data() == other.data()
    }

    /// A copy of the tensor.
    pub fn copy(&self) -> (copy: Tensor)
        ensures
            copy.same_as(*self),
    {
        proof {
            use_type_invariant(self);
        }
        let mut elements: Vec<u32> = Vec::with_capacity(self.elements.len());
        let mut i: usize = 0;
        while i < self.elements.len()
            invariant
                i <= self.elements@.len(),
                elements@ == self.elements@.take(i as int),
            decreases self.elements@.len() - i,
        {
            elements.push(self.elements[i]);
            proof {
                assert(elements@ =~= self.elements@.take(i + 1));
            }
            i = i + 1;
        }
        proof {
            assert(elements@ =~= self.elements@);
        }
        Tensor {
            shape: copy_dims(self.shape.as_slice()),
            dtype: self.dtype,
            device: self.device,
            elements,
        }
    }

    /// Builds a tensor. The number of elements must be that of the shape.
    pub fn new(shape: Vec<usize>, dtype: DType, device: Device, elements: Vec<u32>) -> (r: Result<
        Tensor,
        Error,
    >)
        ensures
            match r {
                Ok(tensor) => {
                    &&& elements@.len() == product(shape@)
                    &&& tensor.dims() == shape@
                    &&& tensor.element_type() == dtype
                    &&& tensor.place() == device
                    &&& tensor.data() == elements@
                },
                Err(e) => {
                    &&& elements@.len() != product(shape@)
                    &&& e == (Error::ElementCount { elements: elements.len(), shape })
                },
            },
    {
        match element_count(shape.as_slice()) {
            Some(count) if count == elements.len() => Ok(Tensor { shape, dtype, device, elements }),
            _ => Err(Error::ElementCount { elements: elements.len(), shape }),
        }
    }

    /// Builds a CPU tensor from 32-bit float patterns.
    pub fn from_f32(shape: Vec<usize>, values: Vec<u32>) -> (r: Result<Tensor, Error>)
        ensures
            match r {
                Ok(tensor) => values@.len() == product(shape@) && tensor.is_f32(shape@, values@),
                Err(e) => {
                    &&& values@.len() != product(shape@)
                    &&& e == (Error::ElementCount { elements: values.len(), shape })
                },
            },
    {
        Tensor::new(shape, DType::F32, Device::Cpu, values)
    }

    /// The sizes of the dimensions.
    pub fn shape(&self) -> (dims: &Vec<usize>)
        ensures
            dims@ == self.dims(),
    {
        &self.shape
    }

    /// The element type.
    pub fn dtype(&self) -> (dtype: DType)
        ensures
            dtype == self.element_type(),
    {
        self.dtype
    }

    /// The device.
    pub fn device(&self) -> (device: Device)
        ensures
            device == self.place(),
    {
        self.device
    }

    /// The raw elements in row-major order, as many as the shape has.
    pub fn elements(&self) -> (elements: &Vec<u32>)
        ensures
            elements@ == self.data(),
            elements@.len() == product(self.dims()),
    {
        proof {
            use_type_invariant(self);
        }
        &self.elements
    }

    /// Takes the tensor apart.
    pub fn into_elements(self) -> (elements: Vec<u32>)
        ensures
            elements@ == self.data(),
            elements@.len() == product(self.dims()),
    {
        proof {
            use_type_invariant(&self);
        }
        self.elements
    }

    /// Whether the tensor has exactly these dimensions.
    pub fn has_shape(&self, dims: &[usize]) -> (same: bool)
        ensures
            same == (self.dims() == dims@),
    {
        same_dims(self.shape.as_slice(), dims)
    }

    /// The 32-bit float patterns of a tensor that holds such.
    pub fn as_f32(&self) -> (r: Result<&Vec<u32>, Error>)
        ensures
            match r {
                Ok(values) => {
                    &&& self.element_type() == DType::F32
                    &&& values@ == self.data()
                    &&& values@.len() == product(self.dims())
                },
                Err(e) => {
                    &&& self.element_type() != DType::F32
                    &&& e == (Error::NotF32 { dtype: self.element_type().name() })
                },
            },
    {
        proof {
            use_type_invariant(self);
        }
        if self.dtype == DType::F32 {
            Ok(&self.elements)
        } else {
            Err(Error::NotF32 { dtype: self.dtype.as_str() })
        }
    }

    /// The elements of a floating tensor, widened to 32-bit float patterns.
    pub fn to_f32_vec(&self) -> (r: Result<Vec<u32>, Error>)
        ensures
            match r {
                Ok(values) => {
                    &&& self.element_type().is_float()
                    &&& values@ == self.floats()
                    &&& values@.len() == product(self.dims())
                },
                Err(e) => {
                    &&& !self.element_type().is_float()
                    &&& e == (Error::NotF32 { dtype: self.element_type().name() })
                },
            },
    {
        proof {
            use_type_invariant(self);
        }
        if self.dtype == DType::I8 {
            return Err(Error::NotF32 { dtype: self.dtype.as_str() });
        }
        let mut values: Vec<u32> = Vec::with_capacity(self.elements.len());
        let mut i: usize = 0;
        while i < self.elements.len()
            invariant
                i <= self.elements@.len(),
                self.dtype != DType::I8,
                values@ == widened(self.dtype, self.elements@).take(i as int),
            decreases self.elements@.len() - i,
        {
            let bits: u32 = self.elements[i];
            let wide: u32 = match self.dtype {
                DType::F16 => widen_f16((bits % 0x1_0000) as u16),
                DType::BF16 => widen_bf16((bits % 0x1_0000) as u16),
                _ => bits,
            };
            values.push(wide);
            proof {
                assert(values@ =~= widened(self.dtype, self.elements@).take(i + 1));
            }
            i = i + 1;
        }
        proof {
            assert(values@ =~= widened(self.dtype, self.elements@));
        }
        Ok(values)
    }
}

/// Whether two shapes are the same.
pub fn same_dims(a: &[usize], b: &[usize]) -> (same: bool)
    ensures
        same == (a@ == b@),
{
    if a.len() != b.len() {
        return false;
    }
    let mut i: usize = 0;
    while i < a.len()
        invariant
            a@.len() == b@.len(),
            i <= a@.len(),
            forall|j: int| 0 <= j < i ==> a@[j] == b@[j],
        decreases a@.len() - i,
    {
        if a[i] != b[i] {
            return false;
        }
        i = i + 1;
    }
    proof {
        assert(a@ =~= b@);
    }
    true
}

/// A copy of a list of sizes.
pub fn copy_dims(dims: &[usize]) -> (copy: Vec<usize>)
    ensures
        copy@ == dims@,
{
    let mut copy: Vec<usize> = Vec::with_capacity(dims.len());
    let mut i: usize = 0;
    while i < dims.len()
        invariant
            i <= dims@.len(),
            copy@ == dims@.take(i as int),
        decreases dims@.len() - i,
    {
        copy.push(dims[i]);
        proof {
            assert(copy@ =~= dims@.take(i + 1));
        }
        i = i + 1;
    }
    proof {
        assert(copy@ =~= dims@);
    }
    copy
}

} // verus!
