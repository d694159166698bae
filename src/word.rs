use vstd::prelude::*;

verus! {

/// `256^n`.
pub open spec fn pow256(n: nat) -> nat
    decreases n,
{
    if n == 0 {
        1
    } else {
        256 * pow256((n - 1) as nat)
    }
}

/// The number that a sequence of bytes spells in big-endian order.
pub open spec fn be_value(s: Seq<u8>) -> nat
    decreases s.len(),
{
    if s.len() == 0 {
        0
    } else {
        s[0] as nat * pow256((s.len() - 1) as nat) + be_value(s.skip(1))
    }
}

/// The number that four 64-bit limbs spell, least significant first.
pub open spec fn limbs_value(l: [u64; 4]) -> nat {
    l[0] as nat + l[1] as nat * pow256(8) + l[2] as nat * pow256(16) + l[3] as nat * pow256(24)
}

/// An unsigned 256-bit integer, held as four 64-bit limbs, least significant first.
#[derive(Clone, Copy, Debug, PartialEq, Eq)]
pub struct Word {
    pub limbs: [u64; 4],
}

impl Word {
    pub open spec fn value(self) -> nat {
        limbs_value(self.limbs)
    }

    /// The word that holds `v`.
    pub fn from_u128(v: u128) -> (r: Word)
        ensures
            r.value() == v as nat,
    {
        limbs_of_u128(v)
    }

    /// The word that a big-endian byte string spells, or `None` where the
    /// number does not fit in 256 bits. Leading zero bytes do not count.
    pub fn from_be_bytes(b: &[u8]) -> (r: Option<Word>)
        ensures
            r.is_some() <==> be_value(b@) < pow256(32),
            r matches Some(w) ==> w.value() == be_value(b@),
    {
        let mut i: usize = 0;
        assert(b@.skip(0) =~= b@);
        while i < b.len() && b[i] == 0
            invariant
                i <= b@.len(),
                be_value(b@.skip(i as int)) == be_value(b@),
            decreases b@.len() - i,
        {
            proof {
                lemma_skip_skip(b@, i as nat);
            }
            i = i + 1;
        }
        let rest = slice_from(b, i);
        if rest.len() > 32 {
            proof {
                lemma_be_value_lower(rest@);
                lemma_pow256_monotone(32, (rest@.len() - 1) as nat);
            }
            None
        } else {
            proof {
                lemma_be_value_upper(rest@);
                lemma_pow256_monotone(rest@.len(), 32);
            }
            Some(limbs_of_be_slice(rest))
        }
    }
}

fn slice_from(b: &[u8], i: usize) -> (r: &[u8])
    requires
        i <= b@.len(),
    ensures
        r@ == b@.skip(i as int),
{
    let mut v: &[u8] = b;
    let mut k: usize = 0;
    while k < i
        invariant
            k <= i,
            i <= b@.len(),
            v@ == b@.skip(k as int),
        decreases i - k,
    {
        proof {
            lemma_skip_skip(b@, k as nat);
        }
        v = v.split_at(1).1;
        k = k + 1;
    }
    v
}

proof fn lemma_skip_skip(s: Seq<u8>, k: nat)
    requires
        k < s.len(),
    ensures
        s.skip(k as int).skip(1) == s.skip((k + 1) as int),
        s.skip(k as int).len() > 0,
        s.skip(k as int)[0] == s[k as int],
{
    assert(s.skip(k as int).skip(1) =~= s.skip((k + 1) as int));
}

proof fn lemma_pow256_monotone(a: nat, b: nat)
    requires
        a <= b,
    ensures
        pow256(a) <= pow256(b),
        pow256(a) > 0,
    decreases b,
{
    if a < b {
        lemma_pow256_monotone(a, (b - 1) as nat);
    } else if a > 0 {
        lemma_pow256_monotone((a - 1) as nat, (a - 1) as nat);
    }
}

/// A number of `n` bytes is below `256^n`.
proof fn lemma_be_value_upper(s: Seq<u8>)
    ensures
        be_value(s) < pow256(s.len()),
    decreases s.len(),
{
    if s.len() > 0 {
        let p = pow256((s.len() - 1) as nat);
        lemma_be_value_upper(s.skip(1));
        assert(s[0] as nat * p <= 255 * p) by (nonlinear_arith)
            requires
                s[0] <= 255,
        ;
    }
}

/// A number whose leading byte is not zero is at least `256^(n-1)`.
proof fn lemma_be_value_lower(s: Seq<u8>)
    requires
        s.len() > 0,
        s[0] != 0,
    ensures
        be_value(s) >= pow256((s.len() - 1) as nat),
{
    let p = pow256((s.len() - 1) as nat);
    assert(s[0] as nat * p >= p) by (nonlinear_arith)
        requires
            s[0] >= 1,
    ;
}

/// Relies on ruint's `Uint::from(u128)` and `Uint::as_limbs`: the same number,
/// as little-endian 64-bit limbs.
#[verifier::external_body]
fn limbs_of_u128(v: u128) -> (r: Word)
    ensures
        r.value() == v as nat,
{
    Word { limbs: *alloy_primitives::U256::from(v).as_limbs() }
}

/// Relies on ruint's `Uint::from_be_slice`, which reads the bytes as a
/// big-endian number (and panics on a slice longer than 32 bytes), and on
/// `Uint::as_limbs`.
#[verifier::external_body]
fn limbs_of_be_slice(b: &[u8]) -> (r: Word)
    requires
        b@.len() <= 32,
    ensures
        r.value() == be_value(b@),
{
    Word { limbs: *alloy_primitives::U256::from_be_slice(b).as_limbs() }
}

} // verus!
