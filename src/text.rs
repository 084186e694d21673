//! Small verified text builders used by the renderers.
use vstd::prelude::*;
use vstd::string::StringExecFns;

verus! {

/// The decimal digit character for `d` (`d < 10`).
pub open spec fn digit_char(d: nat) -> char {
    "0123456789"@[d as int]
}

/// Decimal representation of `n`, most significant digit first, no leading zeros.
pub open spec fn decimal(n: nat) -> Seq<char>
    decreases n,
{
    if n < 10 {
        seq![digit_char(n)]
    } else {
        decimal(n / 10).push(digit_char(n % 10))
    }
}

fn append_digit(out: &mut String, d: u64)
    requires
        d < 10,
    ensures
        final(out)@ == old(out)@ + seq![digit_char(d as nat)],
{
    let digits = "0123456789";
    proof {
        reveal_strlit("0123456789");
    }
    assert(digits.is_ascii());
    let one = digits.substring_ascii(d as usize, d as usize + 1);
    assert(one@ =~= seq![digit_char(d as nat)]);
    out.append(one);
}

/// Appends the decimal representation of `n` to `out`.
pub fn append_decimal(out: &mut String, n: u64)
    ensures
        final(out)@ == old(out)@ + decimal(n as nat),
    decreases n,
{
    if n >= 10 {
        append_decimal(out, n / 10);
    }
    append_digit(out, n % 10);
    assert(out@ =~= old(out)@ + decimal(n as nat));
}

} // verus!
