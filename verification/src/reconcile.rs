//! Size Reconciler: forces a mip-level payload to the caller-declared byte
//! budget, truncating excess bytes or appending zeros as needed.

use vstd::prelude::*;

verus! {

/// The buffer of exactly `n` bytes that the reconciler owes its caller: the
/// prefix of `s` when `s` is long enough, otherwise `s` followed by zeros.
pub open spec fn spec_reconcile(s: Seq<u8>, n: nat) -> Seq<u8> {
    if s.len() >= n {
        s.subrange(0, n as int)
    } else {
        s + Seq::new((n - s.len()) as nat, |i: int| 0u8)
    }
}

/// The reconciled buffer always has exactly the expected length, whatever the
/// input length (zero, short, exact, or far beyond the budget).
pub proof fn lemma_reconcile_len(s: Seq<u8>, n: nat)
    ensures
        spec_reconcile(s, n).len() == n,
{
}

/// Truncation keeps the prefix and padding appends zeros: up to the original
/// length (capped at `n`) the reconciled buffer agrees with `s`, and every
/// byte past the original length is zero.
pub proof fn lemma_reconcile_prefix_and_zeros(s: Seq<u8>, n: nat)
    ensures
        forall|i: int| 0 <= i < n && i < s.len() ==> spec_reconcile(s, n)[i] == s[i],
        forall|i: int| s.len() <= i < n ==> spec_reconcile(s, n)[i] == 0u8,
{
}

/// Reconciling a second time with the same expected size changes nothing.
pub proof fn lemma_reconcile_idempotent(s: Seq<u8>, n: nat)
    ensures
        spec_reconcile(spec_reconcile(s, n), n) == spec_reconcile(s, n),
{
    assert(spec_reconcile(spec_reconcile(s, n), n) =~= spec_reconcile(s, n));
}

/// Force `data` to exactly `expected` bytes: truncate when longer, append
/// zero bytes when shorter. Returns the adjusted buffer together with whether
/// any adjustment was needed, so the caller can surface a diagnostic.
pub fn reconcile(data: Vec<u8>, expected: usize) -> (r: (Vec<u8>, bool))
    ensures
        r.0@ == spec_reconcile(data@, expected as nat),
        r.1 == (data@.len() != expected),
{
    let adjusted = data.len() != expected;
    let mut out = data;
    if out.len() > expected {
        out.truncate(expected);
    } else {
        while out.len() < expected
            invariant
                data@.len() <= expected,
                data@.len() <= out@.len() <= expected,
                out@.subrange(0, data@.len() as int) == data@,
                forall|i: int| data@.len() <= i < out@.len() ==> out@[i] == 0u8,
            decreases expected - out.len(),
        {
            out.push(0u8);
            proof {
                assert(out@.subrange(0, data@.len() as int) == data@);
            }
        }
    }
    proof {
        assert(out@ =~= spec_reconcile(data@, expected as nat));
    }
    (out, adjusted)
}

} // verus!
