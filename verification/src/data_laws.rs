//! Tensors keep their numbers when they are read as 32-bit floats, and names are
//! ordered by their first difference.

use vstd::arithmetic::power2::pow2;
use vstd::prelude::*;

use crate::float_laws::number;
use crate::names::comes_before;
use crate::tensor::{product, DType, Tensor};
use crate::widening_laws::{
    a_brain_float_keeps_its_number, a_half_keeps_its_number, brain_number, half_number,
};

verus! {

/// Reading a tensor as 32-bit floats keeps the number of each element at its
/// place: 32-bit floats as they are, 16-bit floats and brain floats in the unit of
/// the wider format.
pub proof fn elements_keep_their_numbers(tensor: Tensor, i: int)
    requires
        0 <= i < tensor.data().len(),
        tensor.data()[i] < 0x1_0000 || tensor.element_type() == DType::F32,
    ensures
        tensor.floats().len() == tensor.data().len(),
        ({
            let bits = tensor.data()[i];
            match tensor.element_type() {
                DType::F16 => bits as int / 0x400 % 0x20 != 0x1f ==> number(tensor.floats()[i])
                    == half_number(bits as u16) * pow2(125),
                DType::BF16 => bits as int / 0x80 % 0x100 != 0xff ==> number(tensor.floats()[i])
                    == brain_number(bits as u16) * 0x1_0000,
                _ => tensor.floats()[i] == bits,
            }
        }),
{
    let bits = tensor.data()[i];
    match tensor.element_type() {
        DType::F16 => {
            if bits as int / 0x400 % 0x20 != 0x1f {
                a_half_keeps_its_number(bits as u16);
            }
        },
        DType::BF16 => {
            if bits as int / 0x80 % 0x100 != 0xff {
                a_brain_float_keeps_its_number(bits as u16);
            }
        },
        _ => {},
    }
}

/// A copy of a tensor is the same tensor.
pub proof fn a_copy_is_the_same(copy: Tensor, tensor: Tensor)
    requires
        copy.same_as(tensor),
    ensures
        copy.dims() == tensor.dims(),
        copy.element_type() == tensor.element_type(),
        copy.place() == tensor.place(),
        copy.data() == tensor.data(),
        copy.floats() == tensor.floats(),
{
}

/// A shape has as many elements as its first size times the elements of the rest.
pub proof fn elements_multiply(first: usize, rest: Seq<usize>)
    ensures
        product(Seq::<usize>::empty()) == 1,
        product(seq![first] + rest) == first * product(rest),
    decreases rest.len(),
{
    let all = seq![first] + rest;
    if rest.len() == 0 {
        assert(all =~= seq![first]);
        crate::tensor::product_of_one(first);
        assert(first * 1 == first) by (nonlinear_arith);
    } else {
        elements_multiply(first, rest.drop_last());
        assert(all.drop_last() =~= seq![first] + rest.drop_last());
        let inner = product(rest.drop_last()) as int;
        let last = rest.last() as int;
        assert((first * inner) * last == first * (inner * last)) by (nonlinear_arith);
    }
}

/// The two texts agree up to a place, and there the first one ends or has the
/// lesser character.
pub open spec fn differs_first_at(a: Seq<char>, b: Seq<char>, k: int) -> bool {
    &&& 0 <= k <= a.len()
    &&& k < b.len()
    &&& a.take(k) == b.take(k)
    &&& k == a.len() || a[k] < b[k]
}

/// One text comes before another exactly where it is a proper beginning of the
/// other, or has the lesser character where they first differ.
pub proof fn names_are_ordered_by_their_first_difference(a: Seq<char>, b: Seq<char>)
    ensures
        comes_before(a, b) <==> exists|k: int| differs_first_at(a, b, k),
    decreases a.len(),
{
    if b.len() > 0 && a.len() == 0 {
        assert(a.take(0) =~= b.take(0));
        assert(differs_first_at(a, b, 0));
    }
    if b.len() > 0 && a.len() > 0 {
        if a[0] == b[0] {
            let p = a.drop_first();
            let q = b.drop_first();
            names_are_ordered_by_their_first_difference(p, q);
            if comes_before(a, b) {
                let k = choose|k: int| differs_first_at(p, q, k);
                assert forall|j: int| 0 <= j < k + 1 implies a[j] == b[j] by {
                    if j > 0 {
                        assert(p.take(k)[j - 1] == q.take(k)[j - 1]);
                    }
                }
                assert(a.take(k + 1) =~= b.take(k + 1));
                assert(k < p.len() ==> p[k] == a[k + 1] && q[k] == b[k + 1]);
                assert(differs_first_at(a, b, k + 1));
            }
            if exists|k: int| differs_first_at(a, b, k) {
                let k = choose|k: int| differs_first_at(a, b, k);
                assert(k > 0);
                assert forall|j: int| 0 <= j < k - 1 implies p[j] == q[j] by {
                    assert(a.take(k)[j + 1] == b.take(k)[j + 1]);
                }
                assert(p.take(k - 1) =~= q.take(k - 1));
                assert(k < a.len() ==> p[k - 1] == a[k] && q[k - 1] == b[k]);
                assert(differs_first_at(p, q, k - 1));
            }
        } else {
            if a[0] < b[0] {
                assert(a.take(0) =~= b.take(0));
                assert(differs_first_at(a, b, 0));
            } else if exists|k: int| differs_first_at(a, b, k) {
                let k = choose|k: int| differs_first_at(a, b, k);
                if k > 0 {
                    assert(a.take(k)[0] == b.take(k)[0]);
                }
            }
        }
    }
}

} // verus!
