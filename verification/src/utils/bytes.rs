use vstd::prelude::*;

verus! {

/// The unsigned number that the bytes `s` encode in little-endian order.
pub open spec fn le_value(s: Seq<u8>) -> nat
    decreases s.len(),
{
    if s.len() == 0 {
        0
    } else {
        s[0] as nat + 256 * le_value(s.drop_first())
    }
}

/// The little-endian `u32` stored in `data` at `pos`.
pub fn read_u32_le(data: &[u8], pos: usize) -> (res: u32)
    requires
        pos + 4 <= data@.len(),
    ensures
        res == le_value(data@.subrange(pos as int, pos + 4)),
{
    let b0 = data[pos] as u32;
    let b1 = data[pos + 1] as u32;
    let b2 = data[pos + 2] as u32;
    let b3 = data[pos + 3] as u32;
    proof {
        let s = data@.subrange(pos as int, pos + 4);
        reveal_with_fuel(le_value, 5);
        assert(s.drop_first().drop_first().drop_first().drop_first() =~= Seq::<u8>::empty());
        assert(s.drop_first()[0] == b1);
        assert(s.drop_first().drop_first()[0] == b2);
        assert(s.drop_first().drop_first().drop_first()[0] == b3);
    }
    b0 + b1 * 0x100 + b2 * 0x1_0000 + b3 * 0x100_0000
}

/// The little-endian `u64` stored in `data` at `pos`.
pub fn read_u64_le(data: &[u8], pos: usize) -> (res: u64)
    requires
        pos + 8 <= data@.len(),
    ensures
        res == le_value(data@.subrange(pos as int, pos + 8)),
{
    let _len = data.len();
    let lo = read_u32_le(data, pos) as u64;
    let hi = read_u32_le(data, pos + 4) as u64;
    proof {
        reveal_with_fuel(vstd::arithmetic::power::pow, 5);
        assert(vstd::arithmetic::power::pow(256, 4) == 0x1_0000_0000);
        lemma_le_value_split(data@.subrange(pos as int, pos + 8), 4);
        assert(data@.subrange(pos as int, pos + 8).take(4) =~= data@.subrange(pos as int, pos + 4));
        assert(data@.subrange(pos as int, pos + 8).skip(4) =~= data@.subrange(pos + 4, pos + 8));
        lemma_le_value_bound(data@.subrange(pos + 4, pos + 8));
    }
    lo + hi * 0x1_0000_0000
}

/// The value of a concatenation: the low part plus the high part shifted
/// by the low part's length in bytes.
pub proof fn lemma_le_value_split(s: Seq<u8>, n: int)
    requires
        0 <= n <= s.len(),
    ensures
        le_value(s) == le_value(s.take(n)) + vstd::arithmetic::power::pow(256, n as nat) * le_value(s.skip(n)),
    decreases n,
{
    reveal(vstd::arithmetic::power::pow);
    if n == 0 {
        assert(s.skip(0) =~= s);
        assert(le_value(s.take(0)) == 0);
    } else {
        lemma_le_value_split(s.drop_first(), n - 1);
        assert(s.drop_first().take(n - 1) =~= s.take(n).drop_first());
        assert(s.drop_first().skip(n - 1) =~= s.skip(n));
        let p = vstd::arithmetic::power::pow(256, (n - 1) as nat);
        assert(vstd::arithmetic::power::pow(256, n as nat) == 256 * p);
        assert(256 * (le_value(s.take(n).drop_first()) + p * le_value(s.skip(n)))
            == 256 * le_value(s.take(n).drop_first()) + (256 * p) * le_value(s.skip(n))) by (nonlinear_arith);
    }
}

/// `n` bytes encode a number below 256 to the power `n`.
pub proof fn lemma_le_value_bound(s: Seq<u8>)
    ensures
        le_value(s) < vstd::arithmetic::power::pow(256, s.len()),
    decreases s.len(),
{
    reveal(vstd::arithmetic::power::pow);
    if s.len() > 0 {
        lemma_le_value_bound(s.drop_first());
        let p = vstd::arithmetic::power::pow(256, (s.len() - 1) as nat);
        assert(le_value(s) <= 255 + 256 * (p - 1)) by (nonlinear_arith)
            requires
                le_value(s) == s[0] as nat + 256 * le_value(s.drop_first()),
                le_value(s.drop_first()) < p,
                s[0] <= 255;
    }
}

} // verus!
