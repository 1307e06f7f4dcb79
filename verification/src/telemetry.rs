//! Telemetry bookkeeping: the layout of a six-component state vector and the
//! downsampling of a trajectory into a telemetry stream.

use vstd::prelude::*;

verus! {

/// Splits a state `[x, y, z, vx, vy, vz]` into its position `[x, y, z]` and
/// its velocity `[vx, vy, vz]`.
pub fn split_state<T: Copy>(state: &[T; 6]) -> (parts: ([T; 3], [T; 3]))
    ensures
        forall|i: int| 0 <= i < 3 ==> parts.0[i] == state[i] && parts.1[i] == state[i + 3],
{
    ([state[0], state[1], state[2]], [state[3], state[4], state[5]])
}

/// Number of items that `every_nth` keeps of `n` items with stride `stride`.
pub open spec fn kept_count(n: nat, stride: nat) -> nat
    recommends
        stride > 0,
{
    if n == 0 {
        0
    } else {
        ((n - 1) as nat / stride + 1) as nat
    }
}

/// With `k` strides short of `n` and `k + 1` strides reaching it, `k + 1`
/// items are kept.
proof fn lemma_kept_count_step(n: nat, stride: nat, k: nat)
    requires
        stride > 0,
        k * stride < n <= k * stride + stride,
    ensures
        kept_count(n, stride) == k + 1,
{
    assert((k + 1) * stride == k * stride + stride) by (nonlinear_arith);
    vstd::arithmetic::div_mod::lemma_fundamental_div_mod_converse(
        (n - 1) as int,
        stride as int,
        k as int,
        (n - 1 - k * stride) as int,
    );
}

/// Keeps the items at indices `0, stride, 2 * stride, ...`, in order.
pub fn every_nth<T: Copy>(items: &Vec<T>, stride: usize) -> (kept: Vec<T>)
    requires
        stride > 0,
    ensures
        kept.len() == kept_count(items.len() as nat, stride as nat),
        forall|k: int|
            0 <= k < kept.len() ==> k * stride < items.len() && #[trigger] kept[k] == items[k
                * stride],
{
    let n = items.len();
    let mut kept: Vec<T> = Vec::new();
    let mut i: usize = 0;
    let mut k: usize = 0;
    while i < n
        invariant
            n == items.len(),
            stride > 0,
            i == k * stride,
            i <= n,
            k <= i,
            kept.len() == k,
            k == kept_count(i as nat, stride as nat),
            forall|j: int| 0 <= j < k ==> #[trigger] kept[j] == items[j * stride],
        decreases n - i,
    {
        let ghost old_kept = kept@;
        kept.push(items[i]);
        proof {
            assert forall|j: int| 0 <= j < k + 1 implies #[trigger] kept[j] == items[j
                * stride] by {
                if j < k {
                    assert(kept[j] == old_kept[j]);
                }
            }
        }
        if n - i <= stride {
            proof {
                lemma_kept_count_step(n as nat, stride as nat, k as nat);
                lemma_strided_indices_below(k as int, stride as int, n as int);
            }
            return kept;
        }
        proof {
            lemma_kept_count_step((i + stride) as nat, stride as nat, k as nat);
            assert((k + 1) * stride == k * stride + stride) by (nonlinear_arith);
            assert(k + 1 <= i + stride) by (nonlinear_arith)
                requires
                    k <= i,
                    stride >= 1,
            ;
        }
        i = i + stride;
        k = k + 1;
    }
    proof {
        if k > 0 {
            assert((k - 1) * stride == k * stride - stride) by (nonlinear_arith);
            lemma_strided_indices_below((k - 1) as int, stride as int, n as int);
        }
    }
    kept
}

/// Every index `j * stride` with `j <= last` lies below `n` when
/// `last * stride` does.
proof fn lemma_strided_indices_below(last: int, stride: int, n: int)
    requires
        0 <= last,
        stride > 0,
        last * stride < n,
    ensures
        forall|j: int| 0 <= j <= last ==> #[trigger] (j * stride) < n,
{
    assert forall|j: int| 0 <= j <= last implies #[trigger] (j * stride) < n by {
        vstd::arithmetic::mul::lemma_mul_inequality(j, last, stride);
    }
}

/// Downsampling keeps at least the first item of a non-empty stream, never
/// more items than there are, and every item when the stride is one.
pub proof fn kept_count_bounds(n: nat, stride: nat)
    requires
        stride > 0,
    ensures
        n > 0 ==> 1 <= kept_count(n, stride) <= n,
        kept_count(n, 1) == n,
{
    if n > 0 {
        vstd::arithmetic::div_mod::lemma_div_is_ordered_by_denominator((n - 1) as int, 1, stride as int);
        vstd::arithmetic::div_mod::lemma_div_basics((n - 1) as int);
    }
}

} // verus!
