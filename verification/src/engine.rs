//! The shared circuit execution core.
//!
//! Every engine of this library — two-party, three-party, or general
//! `n`-party — keeps one wire-to-share map per party and walks the circuit's
//! gates strictly in their stored (topological) order.  For each gate it
//! collects every party's shares of its input wires, dispatches to the
//! matching gate protocol, and writes the returned per-party output shares
//! back under that gate's id.
//!
//! The correctness statement is about the *joint* view of the per-party maps:
//! `joint_wires` reconstructs, wire by wire, the XOR of all parties' shares.
//! `run_gates` ensures that the joint view of the final maps is exactly the
//! plaintext evaluation (`eval_wires`) of the gates over the joint view
//! of the initial maps — and that a run fails with `MissingWire` exactly when
//! the plaintext evaluation reads an undefined wire.

use vstd::prelude::*;
use std::collections::HashMap;
use crate::circuit::{
    eval_gate_at, eval_wires, eval_wires_from, gate_arity_ok, gates_arity_ok, Gate, GateType,
    WireId,
};
use crate::error::GmwError;
use crate::gates::{and_gate, not_gate, or_gate, xor_gate};
use crate::xor_shares::{xor2, xor_all, xor_from, xor_fst_from, xor_snd_from};

verus! {

broadcast use vstd::std_specs::hash::group_hash_axioms;

/// The mathematical views of a vector of per-party share maps.
pub open spec fn views(maps: Seq<HashMap<WireId, bool>>) -> Seq<Map<WireId, bool>> {
    Seq::new(maps.len(), |i: int| maps[i]@)
}

/// All parties hold shares for exactly the same wires.
pub open spec fn doms_equal(ms: Seq<Map<WireId, bool>>) -> bool {
    forall|i: int| 0 <= i < ms.len() ==> (#[trigger] ms[i]).dom() == ms[0].dom()
}

/// XOR of parties `i..`'s shares of wire `w`.
pub open spec fn xor_maps_at(ms: Seq<Map<WireId, bool>>, w: WireId, i: int) -> bool
    decreases ms.len() - i
{
    if i < 0 || i >= ms.len() {
        false
    } else {
        xor2(ms[i][w], xor_maps_at(ms, w, i + 1))
    }
}

/// The joint view of the per-party share maps: each wire held by the parties,
/// mapped to the XOR of all their shares of it — the plaintext value the
/// shares reconstruct to.
pub open spec fn joint_wires(ms: Seq<Map<WireId, bool>>) -> Map<WireId, bool> {
    Map::new(
        |w: WireId| ms.len() > 0 && ms[0].contains_key(w),
        |w: WireId| xor_maps_at(ms, w, 0),
    )
}

/// A sequence of per-party share pairs collected from two wires folds,
/// component-wise, to the XOR of the parties' shares of each wire.
proof fn lemma_pair_fold_from_maps(
    ms: Seq<Map<WireId, bool>>,
    wa: WireId,
    wb: WireId,
    ps: Seq<(bool, bool)>,
    i: int,
)
    requires
        ps.len() == ms.len(),
        0 <= i <= ms.len(),
        forall|k: int| 0 <= k < ms.len() ==> (#[trigger] ps[k]) == (ms[k][wa], ms[k][wb]),
    ensures
        xor_fst_from(ps, i) == xor_maps_at(ms, wa, i),
        xor_snd_from(ps, i) == xor_maps_at(ms, wb, i),
    decreases ms.len() - i,
{
    if i < ms.len() {
        lemma_pair_fold_from_maps(ms, wa, wb, ps, i + 1);
    }
}

/// A sequence of per-party shares collected from one wire folds to the XOR
/// of the parties' shares of it.
pub(crate) proof fn lemma_single_fold_from_maps(
    ms: Seq<Map<WireId, bool>>,
    wa: WireId,
    ss: Seq<bool>,
    i: int,
)
    requires
        ss.len() == ms.len(),
        0 <= i <= ms.len(),
        forall|k: int| 0 <= k < ms.len() ==> (#[trigger] ss[k]) == ms[k][wa],
    ensures
        xor_from(ss, i) == xor_maps_at(ms, wa, i),
    decreases ms.len() - i,
{
    if i < ms.len() {
        lemma_single_fold_from_maps(ms, wa, ss, i + 1);
    }
}

/// Inserting, into every party's map, that party's share of a fresh wire:
/// the joint XOR at the fresh wire is the XOR of the inserted shares, and
/// the joint XOR at every other wire is unchanged.
pub(crate) proof fn lemma_joint_insert(
    olds: Seq<Map<WireId, bool>>,
    news: Seq<Map<WireId, bool>>,
    w: WireId,
    r: Seq<bool>,
    i: int,
)
    requires
        news.len() == olds.len(),
        r.len() == olds.len(),
        0 <= i <= olds.len(),
        forall|k: int| 0 <= k < olds.len() ==> (#[trigger] news[k]) == olds[k].insert(w, r[k]),
    ensures
        xor_maps_at(news, w, i) == xor_from(r, i),
        forall|w2: WireId| w2 != w ==> #[trigger] xor_maps_at(news, w2, i) == xor_maps_at(
            olds,
            w2,
            i,
        ),
    decreases olds.len() - i,
{
    if i < olds.len() {
        lemma_joint_insert(olds, news, w, r, i + 1);
        assert forall|w2: WireId| w2 != w implies #[trigger] xor_maps_at(news, w2, i)
            == xor_maps_at(olds, w2, i) by {
            assert(xor_maps_at(news, w2, i + 1) == xor_maps_at(olds, w2, i + 1));
        }
    }
}

/// Collects, from every party's map, that party's shares of the two input
/// wires of a binary gate, in party order.  Fails with `MissingWire` naming
/// the first absent wire (the first input wire before the second).
pub(crate) fn collect_binary_inputs(
    maps: &Vec<HashMap<WireId, bool>>,
    wa: WireId,
    wb: WireId,
) -> (r: Result<Vec<(bool, bool)>, GmwError>)
    requires
        maps@.len() >= 1,
        doms_equal(views(maps@)),
    ensures
        match r {
            Ok(ps) => {
                &&& ps@.len() == maps@.len()
                &&& maps@[0]@.contains_key(wa)
                &&& maps@[0]@.contains_key(wb)
                &&& forall|k: int| 0 <= k < ps@.len() ==> (#[trigger] ps@[k]) == (
                    maps@[k]@[wa],
                    maps@[k]@[wb],
                )
            },
            Err(e) => {
                ||| (!maps@[0]@.contains_key(wa) && e == (GmwError::MissingWire { wire: wa }))
                ||| (maps@[0]@.contains_key(wa) && !maps@[0]@.contains_key(wb) && e == (
                    GmwError::MissingWire { wire: wb }
                ))
            },
        },
{
    let n = maps.len();
    let mut party_inputs: Vec<(bool, bool)> = Vec::new();
    let mut k: usize = 0;
    while k < n
        invariant
            n == maps@.len(),
            n >= 1,
            doms_equal(views(maps@)),
            k <= n,
            party_inputs@.len() == k,
            k > 0 ==> maps@[0]@.contains_key(wa) && maps@[0]@.contains_key(wb),
            forall|t: int| 0 <= t < k ==> (#[trigger] party_inputs@[t]) == (
                maps@[t]@[wa],
                maps@[t]@[wb],
            ),
        decreases n - k,
    {
        assert(views(maps@)[k as int].dom() == views(maps@)[0].dom());
        let input_a = match maps[k].get(&wa) {
            Some(v) => *v,
            None => {
                return Err(GmwError::MissingWire { wire: wa });
            },
        };
        let input_b = match maps[k].get(&wb) {
            Some(v) => *v,
            None => {
                return Err(GmwError::MissingWire { wire: wb });
            },
        };
        party_inputs.push((input_a, input_b));
        k = k + 1;
    }
    Ok(party_inputs)
}

/// Collects, from every party's map, that party's share of the single input
/// wire of a unary gate, in party order.
pub(crate) fn collect_unary_inputs(maps: &Vec<HashMap<WireId, bool>>, wa: WireId) -> (r: Result<
    Vec<bool>,
    GmwError,
>)
    requires
        maps@.len() >= 1,
        doms_equal(views(maps@)),
    ensures
        match r {
            Ok(ss) => {
                &&& ss@.len() == maps@.len()
                &&& maps@[0]@.contains_key(wa)
                &&& forall|k: int| 0 <= k < ss@.len() ==> (#[trigger] ss@[k]) == maps@[k]@[wa]
            },
            Err(e) => !maps@[0]@.contains_key(wa) && e == (GmwError::MissingWire { wire: wa }),
        },
{
    let n = maps.len();
    let mut party_inputs: Vec<bool> = Vec::new();
    let mut k: usize = 0;
    while k < n
        invariant
            n == maps@.len(),
            n >= 1,
            doms_equal(views(maps@)),
            k <= n,
            party_inputs@.len() == k,
            k > 0 ==> maps@[0]@.contains_key(wa),
            forall|t: int| 0 <= t < k ==> (#[trigger] party_inputs@[t]) == maps@[t]@[wa],
        decreases n - k,
    {
        assert(views(maps@)[k as int].dom() == views(maps@)[0].dom());
        let input = match maps[k].get(&wa) {
            Some(v) => *v,
            None => {
                return Err(GmwError::MissingWire { wire: wa });
            },
        };
        party_inputs.push(input);
        k = k + 1;
    }
    Ok(party_inputs)
}

/// Runs one gate's protocol over the parties' current share maps and returns
/// every party's output share, in party order.  The XOR of the returned
/// shares is exactly that gate's plaintext output on the joint view; a
/// missing input wire fails with `MissingWire` naming it.
fn gate_output_shares(maps: &Vec<HashMap<WireId, bool>>, gate: &Gate) -> (r: Result<
    Vec<bool>,
    GmwError,
>)
    requires
        maps@.len() >= 2,
        doms_equal(views(maps@)),
        gate_arity_ok(*gate),
    ensures
        match r {
            Ok(out) => {
                &&& out@.len() == maps@.len()
                &&& eval_gate_at(joint_wires(views(maps@)), *gate) matches Ok(v) && xor_all(out@)
                    == v
            },
            Err(e) => eval_gate_at(joint_wires(views(maps@)), *gate) matches Err(w) && e == (
            GmwError::MissingWire { wire: w }),
        },
{
    let ghost jv = joint_wires(views(maps@));
    match gate.gate_type {
        GateType::NOT => {
            let shares = collect_unary_inputs(maps, gate.inputs[0])?;
            proof {
                lemma_single_fold_from_maps(views(maps@), gate.inputs@[0], shares@, 0);
            }
            match not_gate(shares.as_slice()) {
                Ok(out) => Ok(out),
                Err(e) => {
                    // At least two parties hold maps, so the protocol cannot
                    // reject the party count: this branch is provably dead.
                    proof {
                        assert(false);
                    }
                    Err(e)
                },
            }
        },
        GateType::XOR => {
            let ps = collect_binary_inputs(maps, gate.inputs[0], gate.inputs[1])?;
            proof {
                lemma_pair_fold_from_maps(views(maps@), gate.inputs@[0], gate.inputs@[1], ps@, 0);
            }
            match xor_gate(ps.as_slice()) {
                Ok(out) => Ok(out),
                Err(e) => {
                    proof {
                        assert(false);
                    }
                    Err(e)
                },
            }
        },
        GateType::AND => {
            let ps = collect_binary_inputs(maps, gate.inputs[0], gate.inputs[1])?;
            proof {
                lemma_pair_fold_from_maps(views(maps@), gate.inputs@[0], gate.inputs@[1], ps@, 0);
            }
            match and_gate(ps.as_slice()) {
                Ok(out) => Ok(out),
                Err(e) => {
                    proof {
                        assert(false);
                    }
                    Err(e)
                },
            }
        },
        GateType::OR => {
            let ps = collect_binary_inputs(maps, gate.inputs[0], gate.inputs[1])?;
            proof {
                lemma_pair_fold_from_maps(views(maps@), gate.inputs@[0], gate.inputs@[1], ps@, 0);
            }
            match or_gate(ps.as_slice()) {
                Ok(out) => Ok(out),
                Err(e) => {
                    proof {
                        assert(false);
                    }
                    Err(e)
                },
            }
        },
    }
}

/// Writes each party's output share of wire `w` into that party's map.
pub(crate) fn write_back(maps: &mut Vec<HashMap<WireId, bool>>, w: WireId, out: &Vec<bool>)
    requires
        out@.len() == old(maps)@.len(),
    ensures
        final(maps)@.len() == old(maps)@.len(),
        forall|t: int| 0 <= t < old(maps)@.len() ==> (#[trigger] final(maps)@[t])@ == old(
            maps,
        )@[t]@.insert(w, out@[t]),
{
    let ghost orig = maps@;
    let n = maps.len();
    let mut t: usize = 0;
    while t < n
        invariant
            n == orig.len(),
            maps@.len() == n,
            out@.len() == n,
            t <= n,
            forall|u: int| 0 <= u < t ==> (#[trigger] maps@[u])@ == orig[u]@.insert(w, out@[u]),
            forall|u: int| t <= u < n ==> (#[trigger] maps@[u])@ == orig[u]@,
        decreases n - t,
    {
        let m = &mut maps[t];
        m.insert(w, out[t]);
        t = t + 1;
    }
}

/// Evaluates every gate, in stored order, over the parties' share maps.  On
/// success the joint view of the final maps is exactly the plaintext
/// evaluation of the gates over the joint view of the initial maps; the run
/// fails with `MissingWire` exactly when that evaluation reads an undefined
/// wire, and the maps are then left in their state at the failing gate.
pub(crate) fn run_gates(maps: &mut Vec<HashMap<WireId, bool>>, gates: &Vec<Gate>) -> (r: Result<
    (),
    GmwError,
>)
    requires
        old(maps)@.len() >= 2,
        doms_equal(views(old(maps)@)),
        gates_arity_ok(gates@),
    ensures
        final(maps)@.len() == old(maps)@.len(),
        match r {
            Ok(()) => {
                &&& eval_wires(joint_wires(views(old(maps)@)), gates@) matches Ok(m)
                &&& doms_equal(views(final(maps)@))
                &&& joint_wires(views(final(maps)@)) == m
            },
            Err(e) => {
                &&& eval_wires(joint_wires(views(old(maps)@)), gates@) matches Err(w) && e == (
                GmwError::MissingWire { wire: w })
            },
        },
{
    let ghost jv0 = joint_wires(views(old(maps)@));
    let n = maps.len();
    let mut k: usize = 0;
    while k < gates.len()
        invariant
            maps@.len() == n,
            n == old(maps)@.len(),
            jv0 == joint_wires(views(old(maps)@)),
            n >= 2,
            k <= gates@.len(),
            gates_arity_ok(gates@),
            doms_equal(views(maps@)),
            eval_wires_from(joint_wires(views(maps@)), gates@, k as int) == eval_wires(
                jv0,
                gates@,
            ),
        decreases gates@.len() - k,
    {
        let ghost pre = maps@;
        let ghost jv = joint_wires(views(pre));
        let gate = &gates[k];

        let out = match gate_output_shares(maps, gate) {
            Ok(out) => out,
            Err(e) => {
                return Err(e);
            },
        };

        write_back(maps, gate.id, &out);

        proof {
            let ghost v = eval_gate_at(jv, *gate)->Ok_0;
            lemma_joint_insert(views(pre), views(maps@), gate.id, out@, 0);
            assert(joint_wires(views(maps@)) =~= jv.insert(gate.id, v));
            assert forall|u: int| 0 <= u < n implies (#[trigger] views(maps@)[u]).dom() == views(
                maps@,
            )[0].dom() by {
                assert(views(pre)[u].dom() == views(pre)[0].dom());
                assert(views(maps@)[u].dom() =~= views(pre)[u].dom().insert(gate.id));
                assert(views(maps@)[0].dom() =~= views(pre)[0].dom().insert(gate.id));
            }
        }
        k = k + 1;
    }
    Ok(())
}

} // verus!
