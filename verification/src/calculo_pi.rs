//! How the terms of the pi series are split among processes.
//!
//! The `n` terms are cut into `p` consecutive ranges, one per process; the
//! last process also takes what is left when `n` is not a multiple of `p`.
//! The ranges are laid out "flat" for a scatter: `[start0, end0, start1, end1, ...]`.

use vstd::prelude::*;

verus! {

/// `n / p` rounded toward zero, as Rust computes it.
pub open spec fn quociente(n: int, p: int) -> int {
    if n >= 0 { n / p } else { -((-n) / p) }
}

/// Start of the range of process `r`.
pub open spec fn inicio(n: int, p: int, r: int) -> int {
    r * quociente(n, p)
}

/// End (exclusive) of the range of process `r`.
pub open spec fn fim(n: int, p: int, r: int) -> int {
    if r == p - 1 { n } else { (r + 1) * quociente(n, p) }
}

proof fn lemma_multiplo_limitado(n: int, p: int, r: int)
    requires
        p > 0,
        0 <= r <= p,
    ensures
        n >= 0 ==> 0 <= r * quociente(n, p) <= n,
        n < 0 ==> n <= r * quociente(n, p) <= 0,
{
    if n >= 0 {
        assert(0 <= quociente(n, p) && p * quociente(n, p) <= n) by (nonlinear_arith)
            requires n >= 0, p > 0, quociente(n, p) == n / p;
        assert(0 <= r * quociente(n, p) <= p * quociente(n, p)) by (nonlinear_arith)
            requires 0 <= r <= p, quociente(n, p) >= 0;
    } else {
        let q = (-n) / p;
        assert(0 <= q && p * q <= -n) by (nonlinear_arith)
            requires -n > 0, p > 0, q == (-n) / p;
        assert(0 <= r * q <= p * q) by (nonlinear_arith)
            requires 0 <= r <= p, q >= 0;
        assert(r * quociente(n, p) == -(r * q)) by (nonlinear_arith)
            requires quociente(n, p) == -q;
    }
}

/// Entry `k` of the flat layout: the start of range `k / 2` when `k` is
/// even, its end when `k` is odd.
pub open spec fn limite(n: int, p: int, k: int) -> int {
    if k % 2 == 0 { inicio(n, p, k / 2) } else { fim(n, p, k / 2) }
}

/// Cuts `[0, n)` into `p` consecutive ranges, flattened as
/// `[start0, end0, start1, end1, ...]`: range `r` starts at `r * (n / p)`
/// and ends where range `r + 1` starts, the last one ending at `n`.
pub fn make_ranges_flat(n: i64, p: i32) -> (flat: Vec<i64>)
    requires
        p > 0,
    ensures
        flat@.len() == 2 * p,
        forall|k: int| 0 <= k < 2 * p ==> #[trigger] flat@[k] == limite(n as int, p as int, k),
{
    let p_i64 = p as i64;
    let chunk = n / p_i64;
    proof {
        assert(chunk == quociente(n as int, p as int));
    }
    let mut flat: Vec<i64> = Vec::with_capacity((p as usize) * 2);
    let mut r: i64 = 0;
    while r < p_i64
        invariant
            0 <= r <= p_i64,
            p_i64 == p,
            p > 0,
            chunk == quociente(n as int, p as int),
            flat@.len() == 2 * r,
            forall|k: int| 0 <= k < 2 * r ==> #[trigger] flat@[k] == limite(n as int, p as int, k),
        decreases p_i64 - r,
    {
        proof {
            lemma_multiplo_limitado(n as int, p as int, r as int);
            lemma_multiplo_limitado(n as int, p as int, r as int + 1);
        }
        let start = r * chunk;
        proof {
            assert(start + chunk == (r + 1) * chunk) by (nonlinear_arith)
                requires start == r * chunk;
        }
        let end = if r == p_i64 - 1 { n } else { start + chunk };
        let ghost antes = flat@;
        flat.push(start);
        flat.push(end);
        proof {
            assert forall|k: int| 0 <= k < 2 * (r + 1) implies #[trigger] flat@[k] == limite(n as int, p as int, k) by {
                if k < 2 * r {
                    assert(flat@[k] == antes[k]);
                } else if k == 2 * r {
                    assert(k % 2 == 0 && k / 2 == r);
                } else {
                    assert(k % 2 == 1 && k / 2 == r);
                }
            }
        }
        r = r + 1;
    }
    flat
}

/// The ranges tile `[0, n)` without gaps or overlaps: the first starts at 0,
/// each one ends where the next one starts, the last one ends at `n`; when
/// `n >= 0` every range is well ordered, all but the last hold `n / p`
/// terms, and the last holds the rest (at least `n / p`).
pub proof fn lemma_intervalos_particionam(n: int, p: int)
    requires
        p > 0,
    ensures
        inicio(n, p, 0) == 0,
        fim(n, p, p - 1) == n,
        forall|r: int| 0 <= r < p - 1 ==> #[trigger] fim(n, p, r) == inicio(n, p, r + 1),
        n >= 0 ==> forall|r: int| 0 <= r < p ==> inicio(n, p, r) <= #[trigger] fim(n, p, r),
        n >= 0 ==> forall|r: int| 0 <= r < p - 1 ==> #[trigger] fim(n, p, r) - inicio(n, p, r) == n / p,
        n >= 0 ==> fim(n, p, p - 1) - inicio(n, p, p - 1) == n - (p - 1) * (n / p),
        n >= 0 ==> fim(n, p, p - 1) - inicio(n, p, p - 1) >= n / p,
{
    assert forall|r: int| 0 <= r < p - 1 implies #[trigger] fim(n, p, r) == inicio(n, p, r + 1) by {}
    if n >= 0 {
        let q = n / p;
        assert(p * q <= n) by (nonlinear_arith) requires n >= 0, p > 0, q == n / p;
        assert(q >= 0) by (nonlinear_arith) requires n >= 0, p > 0, q == n / p;
        assert forall|r: int| 0 <= r < p implies inicio(n, p, r) <= #[trigger] fim(n, p, r) by {
            lemma_multiplo_limitado(n, p, r);
            assert((r + 1) * q == r * q + q) by (nonlinear_arith);
        }
        assert forall|r: int| 0 <= r < p - 1 implies #[trigger] fim(n, p, r) - inicio(n, p, r) == n / p by {
            assert((r + 1) * q == r * q + q) by (nonlinear_arith);
        }
        assert(n - (p - 1) * q >= q) by (nonlinear_arith) requires p * q <= n;
    }
}

/// Every term `i` of `[0, n)` (for `n >= 0`) belongs to exactly one range.
pub proof fn lemma_cada_termo_em_um_intervalo(n: int, p: int, i: int)
    requires
        p > 0,
        0 <= i < n,
    ensures
        exists|r: int| 0 <= r < p && inicio(n, p, r) <= i < #[trigger] fim(n, p, r),
        forall|r1: int, r2: int|
            #![trigger fim(n, p, r1), fim(n, p, r2)]
            0 <= r1 < p && 0 <= r2 < p && inicio(n, p, r1) <= i < fim(n, p, r1)
                && inicio(n, p, r2) <= i < fim(n, p, r2) ==> r1 == r2,
{
    let q = n / p;
    assert(q >= 0 && p * q <= n) by (nonlinear_arith) requires n >= 0, p > 0, q == n / p;
    // The owner: i / q when that is a valid non-last range, else the last one.
    let dono: int = if q > 0 && i / q < p - 1 { i / q } else { p - 1 };
    if q > 0 && i / q < p - 1 {
        assert(dono * q <= i < (dono + 1) * q) by (nonlinear_arith)
            requires q > 0, dono == i / q, i >= 0;
    } else if q > 0 {
        assert((p - 1) * q <= i) by (nonlinear_arith)
            requires q > 0, i / q >= p - 1, i >= 0;
    }
    assert(inicio(n, p, dono) <= i < fim(n, p, dono));
    assert forall|r1: int, r2: int|
        #![trigger fim(n, p, r1), fim(n, p, r2)]
        0 <= r1 < p && 0 <= r2 < p && inicio(n, p, r1) <= i < fim(n, p, r1)
            && inicio(n, p, r2) <= i < fim(n, p, r2) implies r1 == r2 by {
        if r1 < r2 {
            assert(fim(n, p, r1) <= inicio(n, p, r2)) by {
                assert((r1 + 1) * q <= r2 * q) by (nonlinear_arith) requires r1 + 1 <= r2, q >= 0;
            }
        } else if r2 < r1 {
            assert(fim(n, p, r2) <= inicio(n, p, r1)) by {
                assert((r2 + 1) * q <= r1 * q) by (nonlinear_arith) requires r2 + 1 <= r1, q >= 0;
            }
        }
    }
}

} // verus!
