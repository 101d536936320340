use vstd::prelude::*;

verus! {

/// The value `round_up` computes, over mathematical integers: `n` itself when
/// `m` is zero or `n` is already a multiple of `m`, else the next multiple of
/// `m` above `n`.
pub open spec fn spec_round_up(n: int, m: int) -> int {
    if m <= 0 {
        n
    } else if n % m == 0 {
        n
    } else {
        n + m - n % m
    }
}

/// Rounds `num_in` up to the next multiple of `up_to_multiple`; a multiple of
/// zero leaves the number unchanged.
pub fn round_up(num_in: u64, up_to_multiple: u64) -> (res: u64)
    requires
        spec_round_up(num_in as int, up_to_multiple as int) <= u64::MAX,
    ensures
        res == spec_round_up(num_in as int, up_to_multiple as int),
{
    if up_to_multiple <= 0 {
        return num_in;
    }
    let remainder = num_in % up_to_multiple;
    if remainder == 0 {
        return num_in;
    }
    num_in + (up_to_multiple - remainder)
}

/// Rounding up yields a multiple of the step that is at least the input and
/// less than one step above it; a number that is already a multiple is left
/// as it is.
pub proof fn lemma_round_up_is_least_multiple(n: int, m: int)
    requires
        n >= 0,
        m > 0,
    ensures
        spec_round_up(n, m) % m == 0,
        n <= spec_round_up(n, m) < n + m,
        n % m == 0 ==> spec_round_up(n, m) == n,
{
    if n % m != 0 {
        assert((n + m - n % m) % m == 0) by (nonlinear_arith)
            requires
                m > 0,
                n >= 0,
        {
            assert(n == m * (n / m) + n % m);
            assert(n + m - n % m == m * (n / m + 1));
        }
    }
}

} // verus!
