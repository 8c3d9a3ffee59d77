//! The four gate protocols over XOR shares.
//!
//! Each function takes, for every party, that party's share(s) of a gate's
//! input wire(s) and returns every party's share of the output wire.  The
//! contract of each gate pins the reconstructed output — the XOR of the
//! returned shares — to the plaintext truth table applied to the
//! reconstructed inputs.
//!
//! XOR and NOT are local: each party XORs its own shares, respectively party
//! 0 alone flips its share.  AND needs interaction: besides its local term
//! `x_i & y_i`, every unordered pair of parties runs one cross-term
//! sub-protocol over 1-of-4 oblivious transfer, so that the pair's two result
//! bits XOR to `x_i&y_j XOR x_j&y_i` while neither party sees the other's
//! shares.  OR is derived from AND by De Morgan's law and adds no new
//! primitive.
//!
//! The `_3party` variants are the fixed three-party forms used by the
//! three-party engine; the slice-based forms generalize to any party count of
//! at least two.

use vstd::prelude::*;
use crate::error::GmwError;
use crate::ot::BitOT;
use crate::rng::random_bool;
use crate::xor_shares::{
    cross_row_from, cross_sum_from, cross_term, lemma_and_expansion, lemma_xor_from_update,
    xor2, xor_all, xor_from, xor_fst_from, xor_locals_from, xor_snd_from,
};

verus! {

/// A sequence that holds, per party, one chosen bit folds like that choice:
/// component folds of pair sequences equal the folds of the components.
proof fn lemma_component_fold(ps: Seq<(bool, bool)>, xs: Seq<bool>, ys: Seq<bool>, i: int)
    requires
        xs.len() == ps.len(),
        ys.len() == ps.len(),
        0 <= i <= ps.len(),
        forall|k: int| 0 <= k < ps.len() ==> (#[trigger] xs[k]) == ps[k].0,
        forall|k: int| 0 <= k < ps.len() ==> (#[trigger] ys[k]) == ps[k].1,
    ensures
        xor_from(xs, i) == xor_fst_from(ps, i),
        xor_from(ys, i) == xor_snd_from(ps, i),
    decreases ps.len() - i,
{
    if i < ps.len() {
        lemma_component_fold(ps, xs, ys, i + 1);
    }
}

/// A sequence of the per-party XORs `x_k XOR y_k` folds to the XOR of the
/// two component folds: XOR is linear in GF(2).
proof fn lemma_pairwise_xor_fold(ps: Seq<(bool, bool)>, r: Seq<bool>, i: int)
    requires
        r.len() == ps.len(),
        0 <= i <= ps.len(),
        forall|k: int| 0 <= k < ps.len() ==> (#[trigger] r[k]) == xor2(ps[k].0, ps[k].1),
    ensures
        xor_from(r, i) == xor2(xor_fst_from(ps, i), xor_snd_from(ps, i)),
    decreases ps.len() - i,
{
    if i < ps.len() {
        lemma_pairwise_xor_fold(ps, r, i + 1);
    }
}

/// A sequence of the per-party local terms `x_k & y_k` folds to the
/// local-term fold of the pair sequence.
proof fn lemma_locals_fold(ps: Seq<(bool, bool)>, r: Seq<bool>, i: int)
    requires
        r.len() == ps.len(),
        0 <= i <= ps.len(),
        forall|k: int| 0 <= k < ps.len() ==> (#[trigger] r[k]) == (ps[k].0 && ps[k].1),
    ensures
        xor_from(r, i) == xor_locals_from(ps, i),
    decreases ps.len() - i,
{
    if i < ps.len() {
        lemma_locals_fold(ps, r, i + 1);
    }
}

/// De Morgan's law, the identity the OR protocol rests on: for all bits,
/// `x OR y == NOT(NOT x AND NOT y)`.  Its secure counterpart is `or_gate`'s
/// contract: built exactly as NOT, AND, NOT over shares, `or_gate`
/// reconstructs to `x OR y`.
pub proof fn lemma_de_morgan(x: bool, y: bool)
    ensures
        (x || y) == !(!x && !y),
{
}

/// XOR gate for `n >= 2` parties: no communication, each party XORs its two
/// shares locally.  The reconstructed output is the XOR of the reconstructed
/// inputs.
pub fn xor_gate(party_shares: &[(bool, bool)]) -> (r: Result<Vec<bool>, GmwError>)
    ensures
        match r {
            Ok(out) => {
                &&& party_shares@.len() >= 2
                &&& out@.len() == party_shares@.len()
                &&& forall|k: int| 0 <= k < out@.len() ==> (#[trigger] out@[k]) == xor2(
                    party_shares@[k].0,
                    party_shares@[k].1,
                )
                &&& xor_all(out@) == xor2(
                    xor_fst_from(party_shares@, 0),
                    xor_snd_from(party_shares@, 0),
                )
            },
            Err(e) => {
                &&& party_shares@.len() < 2
                &&& e matches GmwError::PartyCountMismatch { expected, got }
                &&& expected == 2
                &&& got == party_shares@.len()
            },
        },
{
    let n = party_shares.len();
    if n < 2 {
        return Err(GmwError::PartyCountMismatch { expected: 2, got: n });
    }

    let mut result_shares: Vec<bool> = Vec::new();
    let mut k: usize = 0;
    while k < n
        invariant
            n == party_shares@.len(),
            k <= n,
            result_shares@.len() == k,
            forall|t: int| 0 <= t < k ==> (#[trigger] result_shares@[t]) == xor2(
                party_shares@[t].0,
                party_shares@[t].1,
            ),
        decreases n - k,
    {
        let (xk, yk) = party_shares[k];
        result_shares.push(xk ^ yk);
        k = k + 1;
    }

    proof {
        lemma_pairwise_xor_fold(party_shares@, result_shares@, 0);
    }
    Ok(result_shares)
}

/// NOT gate for `n >= 2` parties: party 0 alone flips its share, every other
/// party passes its share through.  Exactly one inversion, so the
/// reconstructed output is the negated reconstructed input.
pub fn not_gate(party_shares: &[bool]) -> (r: Result<Vec<bool>, GmwError>)
    ensures
        match r {
            Ok(out) => {
                &&& party_shares@.len() >= 2
                &&& out@ == party_shares@.update(0, !party_shares@[0])
                &&& xor_all(out@) == !xor_all(party_shares@)
            },
            Err(e) => {
                &&& party_shares@.len() < 2
                &&& e matches GmwError::PartyCountMismatch { expected, got }
                &&& expected == 2
                &&& got == party_shares@.len()
            },
        },
{
    let n = party_shares.len();
    if n < 2 {
        return Err(GmwError::PartyCountMismatch { expected: 2, got: n });
    }

    let mut result_shares: Vec<bool> = Vec::new();
    let mut k: usize = 0;
    while k < n
        invariant
            n == party_shares@.len(),
            k <= n,
            result_shares@.len() == k,
            forall|t: int| 0 <= t < k ==> (#[trigger] result_shares@[t]) == party_shares@[t],
        decreases n - k,
    {
        result_shares.push(party_shares[k]);
        k = k + 1;
    }
    assert(result_shares@ =~= party_shares@);

    let flipped = !result_shares[0];
    result_shares[0] = flipped;

    proof {
        lemma_xor_from_update(party_shares@, 0, !party_shares@[0], 0);
    }
    Ok(result_shares)
}

/// One pairwise AND cross-term sub-protocol between parties `i` and `j`
/// (positions only; the shares decide everything).  Party `i` draws a fresh
/// random mask as its own cross share and offers, via 1-of-4 oblivious
/// transfer, the four values of `x_i&y_j XOR x_j&y_i XOR mask` indexed by the
/// possible `(x_j, y_j)`; party `j` retrieves the one selected by its actual
/// shares.  The two returned shares (ordered by party position) XOR to the
/// cross term, and neither party's raw shares travel unmasked.
pub fn compute_cross_term_ot(
    party_i: (bool, bool),
    party_j: (bool, bool),
    i: usize,
    j: usize,
) -> (r: Result<(bool, bool), GmwError>)
    ensures
        r matches Ok(shares) && xor2(shares.0, shares.1) == xor2(
            party_i.0 && party_j.1,
            party_j.0 && party_i.1,
        ),
{
    let (xi, yi) = party_i;
    let (xj, yj) = party_j;

    let ri = random_bool();

    let messages = (ri, xi ^ ri, yi ^ ri, xi ^ yi ^ ri);

    let rj = BitOT::execute_1_out_of_4(messages, (xj, yj))?;

    if i < j {
        Ok((ri, rj))
    } else {
        Ok((rj, ri))
    }
}

/// AND gate for `n >= 2` parties: every party keeps its local term
/// `x_i & y_i`, every unordered pair of parties XORs in the two shares of
/// their cross term, obtained through `compute_cross_term_ot` — `C(n,2)`
/// transfer sessions in all.  The reconstructed output is the AND of the
/// reconstructed inputs.
pub fn and_gate(party_shares: &[(bool, bool)]) -> (r: Result<Vec<bool>, GmwError>)
    ensures
        match r {
            Ok(out) => {
                &&& party_shares@.len() >= 2
                &&& out@.len() == party_shares@.len()
                &&& xor_all(out@) == (xor_fst_from(party_shares@, 0) && xor_snd_from(
                    party_shares@,
                    0,
                ))
            },
            Err(e) => {
                &&& party_shares@.len() < 2
                &&& e matches GmwError::PartyCountMismatch { expected, got }
                &&& expected == 2
                &&& got == party_shares@.len()
            },
        },
{
    let ghost ps = party_shares@;
    let n = party_shares.len();
    if n < 2 {
        return Err(GmwError::PartyCountMismatch { expected: 2, got: n });
    }

    // Each party starts from its local term x_i & y_i.
    let mut result_shares: Vec<bool> = Vec::new();
    let mut k: usize = 0;
    while k < n
        invariant
            n == ps.len(),
            party_shares@ == ps,
            k <= n,
            result_shares@.len() == k,
            forall|t: int| 0 <= t < k ==> (#[trigger] result_shares@[t]) == (ps[t].0 && ps[t].1),
        decreases n - k,
    {
        let (xk, yk) = party_shares[k];
        result_shares.push(xk && yk);
        k = k + 1;
    }
    proof {
        lemma_locals_fold(ps, result_shares@, 0);
    }

    // One cross-term session per unordered pair; each result bit is XORed
    // into the share of the party it belongs to.
    let mut i: usize = 0;
    while i < n
        invariant
            n == ps.len(),
            party_shares@ == ps,
            n >= 2,
            i <= n,
            result_shares@.len() == n,
            xor2(xor_all(result_shares@), cross_sum_from(ps, i as int)) == xor2(
                xor_locals_from(ps, 0),
                cross_sum_from(ps, 0),
            ),
        decreases n - i,
    {
        let mut j: usize = i + 1;
        while j < n
            invariant
                n == ps.len(),
                party_shares@ == ps,
                i < n,
                i < j <= n,
                result_shares@.len() == n,
                xor2(
                    xor_all(result_shares@),
                    xor2(cross_row_from(ps, i as int, j as int), cross_sum_from(ps, i + 1)),
                ) == xor2(xor_locals_from(ps, 0), cross_sum_from(ps, 0)),
            decreases n - j,
        {
            let (cross_ij, cross_ji) = compute_cross_term_ot(
                party_shares[i],
                party_shares[j],
                i,
                j,
            )?;

            let ghost before = result_shares@;
            let updated_i = result_shares[i] ^ cross_ij;
            result_shares[i] = updated_i;
            let ghost mid = result_shares@;
            let updated_j = result_shares[j] ^ cross_ji;
            result_shares[j] = updated_j;

            proof {
                lemma_xor_from_update(before, i as int, before[i as int] != cross_ij, 0);
                lemma_xor_from_update(mid, j as int, mid[j as int] != cross_ji, 0);
                assert(xor_all(result_shares@) == xor2(
                    xor_all(before),
                    cross_term(ps, i as int, j as int),
                ));
            }
            j = j + 1;
        }
        i = i + 1;
    }

    proof {
        lemma_and_expansion(ps, 0);
    }
    Ok(result_shares)
}

/// OR gate for `n >= 2` parties, by De Morgan's law: NOT both inputs, AND the
/// results, NOT the outcome.  No primitive beyond the AND protocol is needed.
/// The reconstructed output is the OR of the reconstructed inputs.
pub fn or_gate(party_shares: &[(bool, bool)]) -> (r: Result<Vec<bool>, GmwError>)
    ensures
        match r {
            Ok(out) => {
                &&& party_shares@.len() >= 2
                &&& out@.len() == party_shares@.len()
                &&& xor_all(out@) == (xor_fst_from(party_shares@, 0) || xor_snd_from(
                    party_shares@,
                    0,
                ))
            },
            Err(e) => {
                &&& party_shares@.len() < 2
                &&& e matches GmwError::PartyCountMismatch { expected, got }
                &&& expected == 2
                &&& got == party_shares@.len()
            },
        },
{
    let ghost ps = party_shares@;
    let n = party_shares.len();
    if n < 2 {
        return Err(GmwError::PartyCountMismatch { expected: 2, got: n });
    }

    // Split the pair shares into their x and y components.
    let mut x_shares: Vec<bool> = Vec::new();
    let mut y_shares: Vec<bool> = Vec::new();
    let mut k: usize = 0;
    while k < n
        invariant
            n == ps.len(),
            party_shares@ == ps,
            k <= n,
            x_shares@.len() == k,
            y_shares@.len() == k,
            forall|t: int| 0 <= t < k ==> (#[trigger] x_shares@[t]) == ps[t].0,
            forall|t: int| 0 <= t < k ==> (#[trigger] y_shares@[t]) == ps[t].1,
        decreases n - k,
    {
        let (xk, yk) = party_shares[k];
        x_shares.push(xk);
        y_shares.push(yk);
        k = k + 1;
    }
    proof {
        lemma_component_fold(ps, x_shares@, y_shares@, 0);
    }

    // NOT each input.
    let not_x = not_gate(x_shares.as_slice())?;
    let not_y = not_gate(y_shares.as_slice())?;

    // Zip the negated shares back into per-party pairs and AND them.
    let mut and_inputs: Vec<(bool, bool)> = Vec::new();
    let mut t: usize = 0;
    while t < n
        invariant
            n == not_x@.len(),
            n == not_y@.len(),
            t <= n,
            and_inputs@.len() == t,
            forall|u: int| 0 <= u < t ==> (#[trigger] and_inputs@[u]) == (not_x@[u], not_y@[u]),
        decreases n - t,
    {
        and_inputs.push((not_x[t], not_y[t]));
        t = t + 1;
    }
    proof {
        lemma_component_fold(and_inputs@, not_x@, not_y@, 0);
    }

    let and_result = and_gate(and_inputs.as_slice())?;

    // NOT the AND: NOT(NOT x AND NOT y) == x OR y.
    let or_result = not_gate(and_result.as_slice())?;

    Ok(or_result)
}

/// Three-party XOR gate, per party: XOR is linear in GF(2), so each party
/// combines its own two shares with no communication.
pub fn xor_gate_3party(x_share: bool, y_share: bool) -> (r: bool)
    ensures
        r == xor2(x_share, y_share),
{
    x_share ^ y_share
}

/// Three-party NOT gate, per party: party 0 flips its share, every other
/// party keeps its share unchanged.
pub fn not_gate_3party(party_id: u32, share: bool) -> (r: bool)
    ensures
        r == if party_id == 0 {
            !share
        } else {
            share
        },
{
    if party_id == 0 {
        !share
    } else {
        share
    }
}

/// Three-party AND gate over all parties' shares at once (single-process
/// simulation): three local terms plus one cross-term session per pair of
/// parties.  The XOR of the three result shares is the AND of the
/// reconstructed inputs.
pub fn and_gate_3party_local(party_shares: [(bool, bool); 3]) -> (r: Result<[bool; 3], GmwError>)
    ensures
        r matches Ok(out) && xor2(out@[0], xor2(out@[1], out@[2])) == (xor2(
            party_shares@[0].0,
            xor2(party_shares@[1].0, party_shares@[2].0),
        ) && xor2(party_shares@[0].1, xor2(party_shares@[1].1, party_shares@[2].1))),
{
    let (x0, y0) = party_shares[0];
    let (x1, y1) = party_shares[1];
    let (x2, y2) = party_shares[2];

    let local_terms = [x0 && y0, x1 && y1, x2 && y2];

    let (cross_01_for_p0, cross_01_for_p1) = compute_cross_term_ot((x0, y0), (x1, y1), 0, 1)?;
    let (cross_02_for_p0, cross_02_for_p2) = compute_cross_term_ot((x0, y0), (x2, y2), 0, 2)?;
    let (cross_12_for_p1, cross_12_for_p2) = compute_cross_term_ot((x1, y1), (x2, y2), 1, 2)?;

    let result_shares = [
        local_terms[0] ^ cross_01_for_p0 ^ cross_02_for_p0,
        local_terms[1] ^ cross_01_for_p1 ^ cross_12_for_p1,
        local_terms[2] ^ cross_02_for_p2 ^ cross_12_for_p2,
    ];

    Ok(result_shares)
}

/// Three-party OR gate by De Morgan's law: NOT each party's input shares,
/// run the three-party AND, NOT the result.  The XOR of the three result
/// shares is the OR of the reconstructed inputs.
pub fn or_gate_3party_local(
    _party_id: u32,
    party_shares: [(bool, bool); 3],
) -> (r: Result<[bool; 3], GmwError>)
    ensures
        r matches Ok(out) && xor2(out@[0], xor2(out@[1], out@[2])) == (xor2(
            party_shares@[0].0,
            xor2(party_shares@[1].0, party_shares@[2].0),
        ) || xor2(party_shares@[0].1, xor2(party_shares@[1].1, party_shares@[2].1))),
{
    let not_x_shares: [bool; 3] = [
        not_gate_3party(0, party_shares[0].0),
        not_gate_3party(1, party_shares[1].0),
        not_gate_3party(2, party_shares[2].0),
    ];

    let not_y_shares: [bool; 3] = [
        not_gate_3party(0, party_shares[0].1),
        not_gate_3party(1, party_shares[1].1),
        not_gate_3party(2, party_shares[2].1),
    ];

    let and_input_shares = [
        (not_x_shares[0], not_y_shares[0]),
        (not_x_shares[1], not_y_shares[1]),
        (not_x_shares[2], not_y_shares[2]),
    ];

    let and_result = and_gate_3party_local(and_input_shares)?;

    let or_result = [
        not_gate_3party(0, and_result[0]),
        not_gate_3party(1, and_result[1]),
        not_gate_3party(2, and_result[2]),
    ];

    Ok(or_result)
}

} // verus!
