//! Mathematical model of XOR secret sharing.
//!
//! A secret bit is split across `n` parties as a sequence of share bits whose
//! XOR equals the secret.  The spec functions here fold share sequences from a
//! given index to the end, which matches how the executable loops walk them,
//! and the lemmas provide the GF(2) identities that the four gate protocols rest
//! on, chiefly the expansion of a product of XOR sums into local terms and
//! pairwise cross terms.

use vstd::prelude::*;

verus! {

/// XOR of two bits.
pub open spec fn xor2(a: bool, b: bool) -> bool {
    a != b
}

/// XOR-fold of `s[i..]`; `false` outside the sequence.
pub open spec fn xor_from(s: Seq<bool>, i: int) -> bool
    decreases s.len() - i
{
    if i < 0 || i >= s.len() {
        false
    } else {
        xor2(s[i], xor_from(s, i + 1))
    }
}

/// XOR-fold of a whole share sequence: the secret it reconstructs to.
pub open spec fn xor_all(s: Seq<bool>) -> bool {
    xor_from(s, 0)
}

/// XOR-fold of the first components of `ps[i..]` (the `x` shares).
pub open spec fn xor_fst_from(ps: Seq<(bool, bool)>, i: int) -> bool
    decreases ps.len() - i
{
    if i < 0 || i >= ps.len() {
        false
    } else {
        xor2(ps[i].0, xor_fst_from(ps, i + 1))
    }
}

/// XOR-fold of the second components of `ps[i..]` (the `y` shares).
pub open spec fn xor_snd_from(ps: Seq<(bool, bool)>, i: int) -> bool
    decreases ps.len() - i
{
    if i < 0 || i >= ps.len() {
        false
    } else {
        xor2(ps[i].1, xor_snd_from(ps, i + 1))
    }
}

/// XOR-fold of the local terms `x_k & y_k` for parties `k >= i`.
pub open spec fn xor_locals_from(ps: Seq<(bool, bool)>, i: int) -> bool
    decreases ps.len() - i
{
    if i < 0 || i >= ps.len() {
        false
    } else {
        xor2(ps[i].0 && ps[i].1, xor_locals_from(ps, i + 1))
    }
}

/// The pairwise cross term of parties `i` and `j`: `x_i&y_j XOR x_j&y_i`.
pub open spec fn cross_term(ps: Seq<(bool, bool)>, i: int, j: int) -> bool {
    xor2(ps[i].0 && ps[j].1, ps[j].0 && ps[i].1)
}

/// XOR of the cross terms of party `i` with every party `b >= j`.
pub open spec fn cross_row_from(ps: Seq<(bool, bool)>, i: int, j: int) -> bool
    decreases ps.len() - j
{
    if j < 0 || j >= ps.len() {
        false
    } else {
        xor2(cross_term(ps, i, j), cross_row_from(ps, i, j + 1))
    }
}

/// XOR of the cross terms of every unordered pair `{a, b}` with `i <= a < b`.
pub open spec fn cross_sum_from(ps: Seq<(bool, bool)>, i: int) -> bool
    decreases ps.len() - i
{
    if i < 0 || i >= ps.len() {
        false
    } else {
        xor2(cross_row_from(ps, i, i + 1), cross_sum_from(ps, i + 1))
    }
}

/// Updating one share flips the XOR-fold by exactly `old XOR new`, provided
/// the updated index lies in the folded suffix; folds of later suffixes are
/// untouched.
pub proof fn lemma_xor_from_update(s: Seq<bool>, k: int, v: bool, i: int)
    requires
        0 <= k < s.len(),
        0 <= i <= s.len(),
    ensures
        xor_from(s.update(k, v), i) == if i <= k {
            xor2(xor_from(s, i), xor2(s[k], v))
        } else {
            xor_from(s, i)
        },
    decreases s.len() - i,
{
    if i < s.len() {
        lemma_xor_from_update(s, k, v, i + 1);
    }
}

/// Appending a share XORs it into the fold of every suffix.
pub proof fn lemma_xor_from_push(s: Seq<bool>, x: bool, i: int)
    requires
        0 <= i <= s.len(),
    ensures
        xor_from(s.push(x), i) == xor2(xor_from(s, i), x),
    decreases s.len() - i,
{
    if i < s.len() {
        assert(s.push(x)[i] == s[i]);
        lemma_xor_from_push(s, x, i + 1);
    } else {
        assert(s.push(x)[i] == x);
        assert(xor_from(s.push(x), i + 1) == false);
    }
}

/// A row of cross terms of party `i` folds to `x_i & Y XOR X & y_i`, where
/// `X`, `Y` are the XOR sums of the other parties' shares from `j` on.
pub proof fn lemma_cross_row(ps: Seq<(bool, bool)>, i: int, j: int)
    requires
        0 <= i < ps.len(),
        0 <= j <= ps.len(),
    ensures
        cross_row_from(ps, i, j) == xor2(
            ps[i].0 && xor_snd_from(ps, j),
            xor_fst_from(ps, j) && ps[i].1,
        ),
    decreases ps.len() - j,
{
    if j < ps.len() {
        lemma_cross_row(ps, i, j + 1);
    }
}

/// The GMW AND expansion: the product of the XOR sums of the `x` and `y`
/// shares of parties `i..` equals the XOR of their local terms and of all
/// their pairwise cross terms.
pub proof fn lemma_and_expansion(ps: Seq<(bool, bool)>, i: int)
    requires
        0 <= i <= ps.len(),
    ensures
        (xor_fst_from(ps, i) && xor_snd_from(ps, i)) == xor2(
            xor_locals_from(ps, i),
            cross_sum_from(ps, i),
        ),
    decreases ps.len() - i,
{
    if i < ps.len() {
        lemma_and_expansion(ps, i + 1);
        lemma_cross_row(ps, i, i + 1);
    }
}

} // verus!
