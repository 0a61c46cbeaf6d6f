//! Text rendering used by error messages and tensor names.

use vstd::prelude::*;
use vstd::string::*;

verus! {

/// The character of one decimal or hexadecimal digit.
pub open spec fn digit_char(d: nat) -> char {
    if d < 10 {
        (48 + d) as char
    } else {
        (87 + d) as char
    }
}

/// The decimal digits of `n`, most significant first.
pub open spec fn decimal(n: nat) -> Seq<char>
    decreases n,
{
    if n < 10 {
        seq![digit_char(n)]
    } else {
        decimal(n / 10).push(digit_char(n % 10))
    }
}

/// The `width` low lower-case hexadecimal digits of `n`.
pub open spec fn hexadecimal(n: nat, width: nat) -> Seq<char>
    decreases width,
{
    if width == 0 {
        Seq::empty()
    } else {
        hexadecimal(n / 16, (width - 1) as nat).push(digit_char(n % 16))
    }
}

/// The numbers of `values` from `from` on, separated by a comma and a space.
pub open spec fn listed_from(values: Seq<usize>, from: nat) -> Seq<char>
    decreases values.len() - from,
{
    if from >= values.len() {
        Seq::empty()
    } else if from + 1 == values.len() {
        decimal(values[from as int] as nat)
    } else {
        decimal(values[from as int] as nat) + ", "@ + listed_from(values, from + 1)
    }
}

/// `values` between square brackets, as in `[1, 64]`.
pub open spec fn bracketed(values: Seq<usize>) -> Seq<char> {
    "["@ + listed_from(values, 0) + "]"@
}

fn digit_text(d: u8) -> (text: &'static str)
    requires
        d < 16,
    ensures
        text@ == seq![digit_char(d as nat)],
{
    proof {
        reveal_strlit("0");
        reveal_strlit("1");
        reveal_strlit("2");
        reveal_strlit("3");
        reveal_strlit("4");
        reveal_strlit("5");
        reveal_strlit("6");
        reveal_strlit("7");
        reveal_strlit("8");
        reveal_strlit("9");
        reveal_strlit("a");
        reveal_strlit("b");
        reveal_strlit("c");
        reveal_strlit("d");
        reveal_strlit("e");
        reveal_strlit("f");
    }
    let text: &'static str = match d {
        0 => "0",
        1 => "1",
        2 => "2",
        3 => "3",
        4 => "4",
        5 => "5",
        6 => "6",
        7 => "7",
        8 => "8",
        9 => "9",
        10 => "a",
        11 => "b",
        12 => "c",
        13 => "d",
        14 => "e",
        _ => "f",
    };
    assert(text@ =~= seq![digit_char(d as nat)]);
    text
}

/// Appends the decimal digits of `n`.
pub fn push_decimal(out: &mut String, n: u64)
    ensures
        final(out)@ == old(out)@ + decimal(n as nat),
    decreases n,
{
    if n < 10 {
        out.append(digit_text(n as u8));
    } else {
        let ghost before = out@;
        push_decimal(out, n / 10);
        out.append(digit_text((n % 10) as u8));
        proof {
            assert(out@ =~= before + decimal(n as nat));
        }
    }
}

/// Appends the decimal digits of a size.
pub fn push_size(out: &mut String, n: usize)
    ensures
        final(out)@ == old(out)@ + decimal(n as nat),
{
    push_decimal(out, n as u64)
}

/// Appends the eight hexadecimal digits of a 32-bit pattern.
pub fn push_hex(out: &mut String, n: u32)
    ensures
        final(out)@ == old(out)@ + hexadecimal(n as nat, 8),
{
    push_hex_digits(out, n, 8)
}

fn push_hex_digits(out: &mut String, n: u32, width: u32)
    ensures
        final(out)@ == old(out)@ + hexadecimal(n as nat, width as nat),
    decreases width,
{
    if width > 0 {
        let ghost before = out@;
        push_hex_digits(out, n / 16, width - 1);
        out.append(digit_text((n % 16) as u8));
        proof {
            assert(out@ =~= before + hexadecimal(n as nat, width as nat));
        }
    } else {
        proof {
            assert(out@ =~= out@ + hexadecimal(n as nat, 0));
        }
    }
}

/// Appends a bracketed list of sizes.
pub fn push_list(out: &mut String, values: &[usize])
    ensures
        final(out)@ == old(out)@ + bracketed(values@),
{
    let ghost before = out@;
    out.append("[");
    push_listed(out, values, 0);
    out.append("]");
    proof {
        assert(out@ =~= before + bracketed(values@));
    }
}

fn push_listed(out: &mut String, values: &[usize], from: usize)
    requires
        from <= values@.len(),
    ensures
        final(out)@ == old(out)@ + listed_from(values@, from as nat),
    decreases values@.len() - from,
{
    let ghost before = out@;
    if from < values.len() {
        push_size(out, values[from]);
        if from + 1 < values.len() {
            out.append(", ");
            push_listed(out, values, from + 1);
        }
    }
    proof {
        assert(out@ =~= before + listed_from(values@, from as nat));
    }
}

/// Whether two texts hold the same characters.
pub fn same_text(a: &str, b: &str) -> (same: bool)
    ensures
        same == (a@ == b@),
{
    a.to_owned() == b.to_owned()
}

/// Whether `text` starts with `prefix`.
pub fn starts_with(text: &str, prefix: &str) -> (r: bool)
    ensures
        r == prefix@.is_prefix_of(text@),
{
    let prefix_len = prefix.unicode_len();
    if text.unicode_len() < prefix_len {
        return false;
    }
    let head = text.substring_char(0, prefix_len);
    let same = same_text(head, prefix);
    proof {
        if same {
            assert(prefix@ =~= text@.subrange(0, prefix@.len() as int));
        }
    }
    same
}

/// Two numbers with the same decimal digits are the same number.
pub proof fn decimal_is_injective(a: nat, b: nat)
    ensures
        decimal(a) == decimal(b) ==> a == b,
    decreases a,
{
    decimal_is_not_empty(a);
    decimal_is_not_empty(b);
    if decimal(a) == decimal(b) {
        assert(decimal(a).last() == decimal(b).last());
        assert(a % 10 == b % 10);
        if a < 10 && b < 10 {
        } else if a < 10 {
            decimal_is_not_empty(b / 10);
            assert(decimal(b).len() == decimal(b / 10).len() + 1);
        } else if b < 10 {
            decimal_is_not_empty(a / 10);
            assert(decimal(a).len() == decimal(a / 10).len() + 1);
        } else {
            assert(decimal(a).drop_last() =~= decimal(a / 10));
            assert(decimal(b).drop_last() =~= decimal(b / 10));
            decimal_is_injective(a / 10, b / 10);
        }
    }
}

/// Every number has at least one digit, and no digit is a full stop.
pub proof fn decimal_is_not_empty(n: nat)
    ensures
        decimal(n).len() > 0,
        decimal(n).last() == digit_char(n % 10),
        forall|i: int| 0 <= i < decimal(n).len() ==> #[trigger] decimal(n)[i] != '.',
    decreases n,
{
    if n >= 10 {
        decimal_is_not_empty(n / 10);
    }
}

} // verus!
