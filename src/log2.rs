use vstd::prelude::*;

verus! {

/// `2` to the power `e`.
pub open spec fn pow2(e: nat) -> nat
    decreases e,
{
    if e == 0 {
        1
    } else {
        2 * pow2((e - 1) as nat)
    }
}

/// `p` is the floor of the base-two logarithm of `n`: `2^p <= n < 2^(p + 1)`.
pub open spec fn is_log2_floor(n: nat, p: nat) -> bool {
    pow2(p) <= n < pow2(p + 1)
}

proof fn lemma_pow2_monotone(a: nat, b: nat)
    requires
        a <= b,
    ensures
        pow2(a) <= pow2(b),
    decreases b - a,
{
    if a < b {
        lemma_pow2_monotone(a, (b - 1) as nat);
    }
}

proof fn lemma_pow2_64()
    ensures
        pow2(64) == 0x1_0000_0000_0000_0000nat,
{
    reveal_with_fuel(pow2, 65);
}

/// The floor of the base-two logarithm of `num`: the largest `p` with `2^p <= num`.
pub fn log2_floor(num: usize) -> (r: u32)
    requires
        num > 0,
    ensures
        is_log2_floor(num as nat, r as nat),
{
    let mut pow: u32 = 0;
    let mut p: usize = 1;
    while p <= num / 2
        invariant
            num > 0,
            p as nat == pow2(pow as nat),
            1 <= p <= num,
            pow < 64,
        decreases num - p,
    {
        p = p * 2;
        pow = pow + 1;
        proof {
            if pow >= 64 {
                lemma_pow2_monotone(64, pow as nat);
                lemma_pow2_64();
            }
        }
    }
    pow
}

/// The value that `log2_floor` describes is the largest exponent whose power
/// of two does not exceed `n`: every `q` with `2^q <= n` is at most `p`.
pub proof fn lemma_log2_floor_is_largest(n: nat, p: nat, q: nat)
    requires
        is_log2_floor(n, p),
        pow2(q) <= n,
    ensures
        q <= p,
{
    if q > p {
        lemma_pow2_monotone(p + 1, q);
    }
}

/// On a power of two the logarithm is exact: the only `p` that satisfies
/// `is_log2_floor(2^e, p)` is `e` itself.
pub proof fn lemma_log2_floor_of_power(e: nat, p: nat)
    requires
        is_log2_floor(pow2(e), p),
    ensures
        p == e,
{
    lemma_log2_floor_is_largest(pow2(e), p, e);
    if p > e {
        lemma_pow2_monotone(e + 1, p);
    }
}

} // verus!
