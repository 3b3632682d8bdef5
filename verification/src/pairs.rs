//! The order in which the body-body pass visits the unordered pairs of
//! bodies: row by row, `(0, 1), (0, 2), .., (0, n - 1), (1, 2), ..`.

use vstd::prelude::*;

verus! {

/// The pairs whose first index is `i`, among `n` bodies: `(i, i + 1)` up to
/// `(i, n - 1)`.
pub open spec fn row_pairs(n: nat, i: nat) -> Seq<(nat, nat)> {
    Seq::new(
        if i + 1 < n {
            (n - 1 - i) as nat
        } else {
            0
        },
        |k: int| (i, (i + 1 + k) as nat),
    )
}

/// The pairs whose first index is below `i`, row after row.
pub open spec fn pairs_before(n: nat, i: nat) -> Seq<(nat, nat)>
    decreases i,
{
    if i == 0 {
        Seq::empty()
    } else {
        pairs_before(n, (i - 1) as nat) + row_pairs(n, (i - 1) as nat)
    }
}

/// Every unordered pair of `n` bodies, in the order of the pass.
pub open spec fn pair_order(n: nat) -> Seq<(nat, nat)> {
    pairs_before(n, n)
}

/// Where the pair `(i, j)` stands in `pair_order(n)`.
pub open spec fn pair_index(n: nat, i: nat, j: nat) -> int {
    pairs_before(n, i).len() + (j - i - 1)
}

/// Whether `p` comes before `q` when pairs are compared by their first index
/// and then by their second.
pub open spec fn pair_precedes(p: (nat, nat), q: (nat, nat)) -> bool {
    p.0 < q.0 || (p.0 == q.0 && p.1 < q.1)
}

/// The first `i` rows hold `i * (2n - i - 1) / 2` pairs.
pub proof fn lemma_pairs_before_len(n: nat, i: nat)
    requires
        i <= n,
    ensures
        2 * pairs_before(n, i).len() == i * (2 * n - i - 1),
    decreases i,
{
    if i == 0 {
        assert(pairs_before(n, i).len() == 0);
    } else {
        let h = (i - 1) as nat;
        lemma_pairs_before_len(n, h);
        assert(row_pairs(n, h).len() == n - 1 - h);
        assert(h * (2 * n - h - 1) + 2 * (n - 1 - h) == i * (2 * n - i - 1)) by (nonlinear_arith)
            requires
                i == h + 1,
        ;
    }
}

/// Every pair of the first `i` rows has its second index above its first and
/// below `n`, and its first index below `i`.
pub proof fn lemma_pairs_before_entries(n: nat, i: nat, k: int)
    requires
        0 <= k < pairs_before(n, i).len(),
    ensures
        pairs_before(n, i)[k].0 < i,
        pairs_before(n, i)[k].0 < pairs_before(n, i)[k].1 < n,
    decreases i,
{
    if i > 0 {
        let h = (i - 1) as nat;
        if k < pairs_before(n, h).len() {
            lemma_pairs_before_entries(n, h, k);
        }
    }
}

/// The pair `(i, j)` stands at `pair_index(n, i, j)` in every longer prefix
/// of the order.
pub proof fn lemma_pairs_before_holds(n: nat, rows: nat, i: nat, j: nat)
    requires
        i < j < n,
        i < rows,
    ensures
        0 <= pair_index(n, i, j) < pairs_before(n, rows).len(),
        pairs_before(n, rows)[pair_index(n, i, j)] == (i, j),
    decreases rows,
{
    let h = (rows - 1) as nat;
    if i == h {
        assert(row_pairs(n, h)[j - i - 1] == (i, j));
    } else {
        lemma_pairs_before_holds(n, h, i, j);
    }
}

/// Within the first `i` rows, an earlier pair precedes a later one.
pub proof fn lemma_pairs_before_increasing(n: nat, i: nat, k: int, l: int)
    requires
        0 <= k < l < pairs_before(n, i).len(),
    ensures
        pair_precedes(pairs_before(n, i)[k], pairs_before(n, i)[l]),
    decreases i,
{
    if i > 0 {
        let h = (i - 1) as nat;
        let m = pairs_before(n, h).len();
        if l < m {
            lemma_pairs_before_increasing(n, h, k, l);
        } else if k < m {
            lemma_pairs_before_entries(n, h, k);
        }
    }
}

/// The pass visits `n * (n - 1) / 2` pairs.
pub proof fn lemma_pair_order_len(n: nat)
    ensures
        2 * pair_order(n).len() == n * (n - 1),
{
    lemma_pairs_before_len(n, n);
    assert(n * (2 * n - n - 1) == n * (n - 1)) by (nonlinear_arith);
}

/// Every pair that the pass visits is a pair of two different bodies, the
/// one of the lower index first.
pub proof fn lemma_pair_order_entries(n: nat, k: int)
    requires
        0 <= k < pair_order(n).len(),
    ensures
        pair_order(n)[k].0 < pair_order(n)[k].1 < n,
{
    lemma_pairs_before_entries(n, n, k);
}

/// The pass visits every unordered pair of bodies.
pub proof fn lemma_pair_order_complete(n: nat, i: nat, j: nat)
    requires
        i < j < n,
    ensures
        0 <= pair_index(n, i, j) < pair_order(n).len(),
        pair_order(n)[pair_index(n, i, j)] == (i, j),
{
    lemma_pairs_before_holds(n, n, i, j);
}

/// The pass visits no pair twice: on the way the pairs increase.
pub proof fn lemma_pair_order_increasing(n: nat, k: int, l: int)
    requires
        0 <= k < l < pair_order(n).len(),
    ensures
        pair_precedes(pair_order(n)[k], pair_order(n)[l]),
        pair_order(n)[k] != pair_order(n)[l],
{
    lemma_pairs_before_increasing(n, n, k, l);
}

} // verus!
