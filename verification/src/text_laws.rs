//! Numbers in texts can be read back.

use vstd::prelude::*;

use crate::text::{bracketed, decimal, hexadecimal, listed_from};

verus! {

/// What a decimal digit stands for.
pub open spec fn digit(c: char) -> int {
    match c {
        '0' => 0,
        '1' => 1,
        '2' => 2,
        '3' => 3,
        '4' => 4,
        '5' => 5,
        '6' => 6,
        '7' => 7,
        '8' => 8,
        '9' => 9,
        'a' => 10,
        'b' => 11,
        'c' => 12,
        'd' => 13,
        'e' => 14,
        'f' => 15,
        _ => -1,
    }
}

/// The number that digits stand for in a base, the most significant first.
pub open spec fn number_in(digits: Seq<char>, base: int) -> int
    decreases digits.len(),
{
    if digits.len() == 0 {
        0
    } else {
        base * number_in(digits.drop_last(), base) + digit(digits.last())
    }
}

/// The decimal digits of a number stand for it: all are digits, and there is no
/// leading zero but for zero itself.
pub proof fn decimal_digits_stand_for_the_number(n: nat)
    ensures
        number_in(decimal(n), 10) == n,
        forall|i: int| 0 <= i < decimal(n).len() ==> 0 <= digit(#[trigger] decimal(n)[i]) < 10,
        decimal(n).len() > 0,
        n > 0 ==> digit(decimal(n)[0]) > 0,
        n == 0 ==> decimal(n).len() == 1,
    decreases n,
{
    reveal_with_fuel(number_in, 2);
    if n >= 10 {
        decimal_digits_stand_for_the_number(n / 10);
        assert(decimal(n).drop_last() =~= decimal(n / 10));
        assert(decimal(n)[0] == decimal(n / 10)[0]);
        assert forall|i: int| 0 <= i < decimal(n).len() implies 0 <= digit(
            #[trigger] decimal(n)[i],
        ) < 10 by {
            if i < decimal(n).len() - 1 {
                assert(decimal(n)[i] == decimal(n / 10)[i]);
            }
        }
    } else {
        assert(decimal(n).drop_last() =~= Seq::<char>::empty());
    }
}

/// Hexadecimal digits of a number that fits stand for it.
pub proof fn hexadecimal_digits_stand_for_the_number(n: nat, width: nat)
    requires
        n < vstd::arithmetic::power::pow(16, width),
    ensures
        hexadecimal(n, width).len() == width,
        number_in(hexadecimal(n, width), 16) == n,
    decreases width,
{
    reveal(vstd::arithmetic::power::pow);
    if width > 0 {
        let lower = vstd::arithmetic::power::pow(16, (width - 1) as nat);
        assert(n < 16 * lower);
        assert(n / 16 < lower);
        hexadecimal_digits_stand_for_the_number(n / 16, (width - 1) as nat);
        assert(hexadecimal(n, width).drop_last() =~= hexadecimal(n / 16, (width - 1) as nat));
    }
}

/// A list in brackets names its numbers one behind the other, with a comma and a
/// space between.
pub proof fn a_list_names_its_numbers_in_order(a: usize, b: usize, c: usize)
    ensures
        bracketed(Seq::<usize>::empty()) == "["@ + "]"@,
        bracketed(seq![a]) == "["@ + decimal(a as nat) + "]"@,
        bracketed(seq![a, b]) == "["@ + decimal(a as nat) + ", "@ + decimal(b as nat) + "]"@,
        bracketed(seq![a, b, c]) == "["@ + decimal(a as nat) + ", "@ + decimal(b as nat) + ", "@
            + decimal(c as nat) + "]"@,
{
    reveal_with_fuel(listed_from, 4);
    assert("["@ + Seq::<char>::empty() + "]"@ =~= "["@ + "]"@);
    assert(bracketed(seq![a, b]) =~= "["@ + decimal(a as nat) + ", "@ + decimal(b as nat) + "]"@);
    assert(bracketed(seq![a, b, c]) =~= "["@ + decimal(a as nat) + ", "@ + decimal(b as nat)
        + ", "@ + decimal(c as nat) + "]"@);
}

} // verus!
