use vstd::prelude::*;

use crate::errors::GosonnxError;
use crate::gpu::topo;
use crate::graph::{Graph, Op};
use crate::ops::OpType;
use crate::store::{find_key, has_key, unique_keys};
use crate::utils::{contains_view, copy_pairs, copy_strings, views_of};

verus! {

/// Every name reading `from` replaced by the string `to`.
pub open spec fn renamed_names(v: Seq<String>, from: Seq<char>, to: String) -> Seq<String> {
    v.map_values(|e: String| if e@ == from { to } else { e })
}

/// Every slot reading `slot` replaced by the whole of `repl`.
pub open spec fn spliced_names(v: Seq<String>, slot: Seq<char>, repl: Seq<String>) -> Seq<String>
    decreases v.len(),
{
    if v.len() == 0 {
        Seq::empty()
    } else {
        spliced_names(v.drop_last(), slot, repl) + (if v.last()@ == slot {
            repl
        } else {
            seq![v.last()]
        })
    }
}

/// Renaming is idempotent when the new name differs from the old.
proof fn lemma_renamed_idempotent(v: Seq<String>, from: Seq<char>, to: String)
    requires
        to@ != from,
    ensures
        renamed_names(renamed_names(v, from, to), from, to) == renamed_names(v, from, to),
{
    assert(renamed_names(renamed_names(v, from, to), from, to) =~= renamed_names(v, from, to));
}

/// A copy of `v` with every name reading `from` replaced by `to`.
fn rename_strings(v: &Vec<String>, from: &str, to: &String) -> (r: Vec<String>)
    ensures
        r@ == renamed_names(v@, from@, *to),
{
    let mut r: Vec<String> = Vec::new();
    let n = v.len();
    for i in 0..n
        invariant
            n == v@.len(),
            r@ == renamed_names(v@.take(i as int), from@, *to),
    {
        if crate::store::str_eq(v[i].as_str(), from) {
            r.push(to.clone());
        } else {
            r.push(v[i].clone());
        }
        assert(r@ =~= renamed_names(v@.take(i + 1), from@, *to));
    }
    assert(v@.take(n as int) =~= v@);
    r
}

/// A copy of `v` with every slot reading `slot` replaced by all of `repl`.
fn splice_strings(v: &Vec<String>, slot: &str, repl: &Vec<String>) -> (r: Vec<String>)
    ensures
        r@ == spliced_names(v@, slot@, repl@),
{
    let mut r: Vec<String> = Vec::new();
    let n = v.len();
    for i in 0..n
        invariant
            n == v@.len(),
            r@ == spliced_names(v@.take(i as int), slot@, repl@),
    {
        proof {
            assert(v@.take(i + 1).drop_last() =~= v@.take(i as int));
        }
        if crate::store::str_eq(v[i].as_str(), slot) {
            let mut add = copy_strings(repl);
            r.append(&mut add);
        } else {
            r.push(v[i].clone());
        }
        assert(r@ =~= spliced_names(v@.take(i + 1), slot@, repl@));
    }
    assert(v@.take(n as int) =~= v@);
    r
}

impl Graph {
    /// Overwrites the extra-attribute list of the operator named `name`
    /// with `extra`; fusion uses this to tag a producer with the
    /// activation it absorbs. Everything else is left as it was.
    pub fn set_extra_attr(&mut self, name: &str, extra: Vec<(String, String)>) -> (r: Result<
        (),
        GosonnxError,
    >)
        ensures
            (r is Ok) <==> has_key(old(self).op_map@, name@),
            r is Err ==> *final(self) == *old(self) && r->Err_0 is Error,
            r is Ok ==> {
                let ops0 = old(self).op_map@;
                let ic = find_key(ops0, name@);
                &&& final(self).op_map@.len() == ops0.len()
                &&& (forall|t: int|
                    0 <= t < ops0.len() && t != ic ==> #[trigger] final(self).op_map@[t]
                        == ops0[t])
                &&& final(self).op_map@[ic].0 == ops0[ic].0
                &&& final(self).op_map@[ic].1.op_type == ops0[ic].1.op_type
                &&& final(self).op_map@[ic].1.op_name == ops0[ic].1.op_name
                &&& final(self).op_map@[ic].1.inputs == ops0[ic].1.inputs
                &&& final(self).op_map@[ic].1.outputs == ops0[ic].1.outputs
                &&& final(self).op_map@[ic].1.prevs == ops0[ic].1.prevs
                &&& final(self).op_map@[ic].1.nexts == ops0[ic].1.nexts
                &&& final(self).op_map@[ic].1.extra_attr == Some(extra)
            },
            final(self).tensor_map == old(self).tensor_map,
            final(self).output_tensor_map == old(self).output_tensor_map,
            final(self).optional_output_tensors == old(self).optional_output_tensors,
    {
        match self.op_map.index_of(name) {
            None => Err(GosonnxError::Error("operator to annotate was not found".to_owned())),
            Some(i) => {
                proof {
                    crate::store::lemma_find_key(self.op_map@, name@);
                }
                let ghost pre = self.op_map@;
                let (k, mut op) = self.op_map.take_at(i);
                op.extra_attr = Some(extra);
                let ghost gop = op;
                self.op_map.put_at(i, k, op);
                proof {
                    assert(self.op_map@ =~= pre.update(i as int, (pre[i as int].0, gop)));
                }
                Ok(())
            }
        }
    }

    /// Removes the operator named `name` and reconnects its
    /// neighbourhood: each of its successors has its predecessor slots
    /// that read `name` renamed to the removed operator's first
    /// predecessor; that predecessor takes over the removed operator's
    /// output names and has its successor slot spliced to the removed
    /// operator's successors. Fails — leaving the graph unchanged — when
    /// `name` or its first predecessor cannot be resolved.
    #[verifier::rlimit(60)]
    pub fn remove_node_and_connect_neighbors(&mut self, name: &str) -> (r: Result<
        (),
        GosonnxError,
    >)
        requires
            unique_keys(old(self).op_map@),
        ensures
            r is Err ==> *final(self) == *old(self) && r->Err_0 is Error,
            (r is Ok) <==> ({
                let ops0 = old(self).op_map@;
                &&& has_key(ops0, name@)
                &&& ops0[find_key(ops0, name@)].1.prevs@.len() > 0
                &&& ops0[find_key(ops0, name@)].1.prevs@[0]@ != name@
                &&& has_key(ops0, ops0[find_key(ops0, name@)].1.prevs@[0]@)
            }),
            r is Ok ==> ({
                let ops0 = old(self).op_map@;
                let ic = find_key(ops0, name@);
                let curr = ops0[ic].1;
                let pname = curr.prevs@[0]@;
                let pstr = curr.prevs@[0];
                &&& final(self).op_map@.len() == ops0.len() - 1
                &&& unique_keys(final(self).op_map@)
                &&& (forall|t: int|
                    0 <= t < final(self).op_map@.len() ==> {
                        let u = if t < ic {
                            t
                        } else {
                            t + 1
                        };
                        let e1 = #[trigger] final(self).op_map@[t];
                        let e0 = ops0[u];
                        &&& e1.0 == e0.0
                        &&& e1.1.op_type == e0.1.op_type
                        &&& e1.1.op_name == e0.1.op_name
                        &&& e1.1.inputs == e0.1.inputs
                        &&& e1.1.extra_attr == e0.1.extra_attr
                        &&& e1.1.outputs@ == (if e0.0 == pname {
                            curr.outputs@
                        } else {
                            e0.1.outputs@
                        })
                        &&& e1.1.nexts@ == (if e0.0 == pname {
                            spliced_names(e0.1.nexts@, name@, curr.nexts@)
                        } else {
                            e0.1.nexts@
                        })
                        &&& e1.1.prevs@ == (if contains_view(curr.nexts@, e0.0) {
                            renamed_names(e0.1.prevs@, name@, pstr)
                        } else {
                            e0.1.prevs@
                        })
                    })
            }),
            final(self).tensor_map == old(self).tensor_map,
            final(self).output_tensor_map == old(self).output_tensor_map,
            final(self).optional_output_tensors == old(self).optional_output_tensors,
    {
        let ghost ops0 = self.op_map@;
        let ic = match self.op_map.index_of(name) {
            None => {
                return Err(GosonnxError::Error("operator to remove was not found".to_owned()));
            }
            Some(i) => i,
        };
        proof {
            crate::store::lemma_find_key(ops0, name@);
        }
        let cname: String;
        let prev_name: String;
        let curr_nexts: Vec<String>;
        let curr_outputs: Vec<String>;
        {
            let curr = self.op_map.value_at(ic);
            if curr.prevs.len() == 0 {
                return Err(GosonnxError::Error("operator to remove has no predecessor".to_owned()));
            }
            cname = self.op_map.key_at(ic).clone();
            prev_name = curr.prevs[0].clone();
            curr_nexts = copy_strings(&curr.nexts);
            curr_outputs = copy_strings(&curr.outputs);
        }
        if crate::store::str_eq(prev_name.as_str(), name) {
            return Err(GosonnxError::Error("operator to remove is its own predecessor".to_owned()));
        }
        if !self.op_map.contains_key(prev_name.as_str()) {
            return Err(GosonnxError::Error("predecessor was not found".to_owned()));
        }
        let ghost curr = ops0[ic as int].1;
        let ghost pstr = curr.prevs@[0];
        // Rewire the predecessor slots of every successor of the removed
        // operator.
        let ns = curr_nexts.len();
        for q in 0..ns
            invariant
                ns == curr_nexts@.len(),
                curr_nexts@ == curr.nexts@,
                prev_name == pstr,
                cname@ == name@,
                pstr@ != name@,
                unique_keys(ops0),
                self.op_map@.len() == ops0.len(),
                forall|t: int| 0 <= t < ops0.len() ==> (#[trigger] self.op_map@[t]).0 == ops0[t].0,
                forall|t: int|
                    0 <= t < ops0.len() ==> {
                        let e1 = #[trigger] self.op_map@[t];
                        let e0 = ops0[t];
                        &&& e1.1.op_type == e0.1.op_type
                        &&& e1.1.op_name == e0.1.op_name
                        &&& e1.1.inputs == e0.1.inputs
                        &&& e1.1.extra_attr == e0.1.extra_attr
                        &&& e1.1.outputs == e0.1.outputs
                        &&& e1.1.nexts == e0.1.nexts
                        &&& e1.1.prevs@ == (if contains_view(curr_nexts@.take(q as int), e0.0) {
                            renamed_names(e0.1.prevs@, name@, pstr)
                        } else {
                            e0.1.prevs@
                        })
                    },
                self.tensor_map == old(self).tensor_map,
                self.output_tensor_map == old(self).output_tensor_map,
                self.optional_output_tensors == old(self).optional_output_tensors,
        {
            proof {
                assert(curr_nexts@.take(q + 1).drop_last() =~= curr_nexts@.take(q as int));
                assert(curr_nexts@.take(q + 1) =~= curr_nexts@.take(q as int).push(
                    curr_nexts@[q as int],
                ));
            }
            match self.op_map.index_of(curr_nexts[q].as_str()) {
                None => {
                    proof {
                        assert forall|t: int| 0 <= t < ops0.len() implies {
                            let e1 = #[trigger] self.op_map@[t];
                            let e0 = ops0[t];
                            e1.1.prevs@ == (if contains_view(curr_nexts@.take(q + 1), e0.0) {
                                renamed_names(e0.1.prevs@, name@, pstr)
                            } else {
                                e0.1.prevs@
                            })
                        } by {
                            crate::utils::lemma_contains_view_push(
                                curr_nexts@.take(q as int),
                                curr_nexts@[q as int],
                                ops0[t].0,
                            );
                            if curr_nexts@[q as int]@ == ops0[t].0 {
                                assert(self.op_map@[t].0 == ops0[t].0);
                                assert(has_key(self.op_map@, curr_nexts@[q as int]@));
                                assert(false);
                            }
                        }
                    }
                }
                Some(is) => {
                    let ghost pre = self.op_map@;
                    proof {
                        crate::store::lemma_find_key(pre, curr_nexts@[q as int]@);
                    }
                    let (ks, mut sop) = self.op_map.take_at(is);
                    let renamed = rename_strings(&sop.prevs, name, &prev_name);
                    sop.prevs = renamed;
                    let ghost gsop = sop;
                    self.op_map.put_at(is, ks, sop);
                    proof {
                        assert(self.op_map@ =~= pre.update(is as int, (pre[is as int].0, gsop)));
                        crate::store::lemma_find_key(pre, curr_nexts@[q as int]@);
                        assert(ops0[is as int].0 == curr_nexts@[q as int]@);
                        if contains_view(curr_nexts@.take(q as int), ops0[is as int].0) {
                            lemma_renamed_idempotent(ops0[is as int].1.prevs@, name@, pstr);
                        }
                        assert forall|t: int| 0 <= t < ops0.len() implies {
                            let e1 = #[trigger] self.op_map@[t];
                            let e0 = ops0[t];
                            e1.1.prevs@ == (if contains_view(curr_nexts@.take(q + 1), e0.0) {
                                renamed_names(e0.1.prevs@, name@, pstr)
                            } else {
                                e0.1.prevs@
                            })
                        } by {
                            crate::utils::lemma_contains_view_push(
                                curr_nexts@.take(q as int),
                                curr_nexts@[q as int],
                                ops0[t].0,
                            );
                            if t != is as int {
                                assert(self.op_map@[t] == pre[t]);
                                if curr_nexts@[q as int]@ == ops0[t].0 {
                                    assert(ops0[is as int].0 == ops0[t].0);
                                    assert(false);
                                }
                            }
                        }
                    }
                }
            }
        }
        proof {
            assert(curr_nexts@.take(ns as int) =~= curr_nexts@);
        }
        // The predecessor takes over the removed operator's outputs, and
        // its successor slot is spliced to the removed operator's
        // successors.
        let ip = match self.op_map.index_of(prev_name.as_str()) {
            None => {
                proof {
                    crate::store::lemma_find_key_same_keys(ops0, self.op_map@, prev_name@);
                    assert(false);
                }
                return Err(GosonnxError::Error("predecessor was not found".to_owned()));
            }
            Some(i) => i,
        };
        let ghost pre = self.op_map@;
        proof {
            crate::store::lemma_find_key(pre, prev_name@);
        }
        let (kp, mut pop) = self.op_map.take_at(ip);
        let spliced = splice_strings(&pop.nexts, name, &curr_nexts);
        pop.nexts = spliced;
        pop.outputs = curr_outputs;
        let ghost gpop = pop;
        self.op_map.put_at(ip, kp, pop);
        proof {
            assert(self.op_map@ =~= pre.update(ip as int, (pre[ip as int].0, gpop)));
        }
        // Finally, drop the removed operator itself.
        let ghost pre3 = self.op_map@;
        match self.op_map.index_of(name) {
            None => {
                proof {
                    crate::store::lemma_find_key_same_keys(ops0, pre3, name@);
                    assert(false);
                }
                return Err(GosonnxError::Error("operator to remove was not found".to_owned()));
            }
            Some(i2) => {
                proof {
                    crate::store::lemma_find_key(pre3, name@);
                    crate::store::lemma_find_key(ops0, name@);
                    crate::store::lemma_find_key_same_keys(ops0, pre3, name@);
                }
                let _ = self.op_map.take_at(i2);
                proof {
                    let ops1 = final(self).op_map@;
                    assert(ops1 =~= pre3.remove(ic as int));
                    assert forall|t: int, u: int|
                        0 <= t < u < ops1.len() implies ops1[t].0 != ops1[u].0 by {
                        let t0 = if t < ic as int {
                            t
                        } else {
                            t + 1
                        };
                        let u0 = if u < ic as int {
                            u
                        } else {
                            u + 1
                        };
                        assert(ops1[t].0 == ops0[t0].0);
                        assert(ops1[u].0 == ops0[u0].0);
                    }
                }
                Ok(())
            }
        }
    }
}

/// The graph-rewrite optimizer: walks the operators in topological order
/// and fuses each eligible activation into its producer.
/// Whether the operator at position `t` is ready to fuse: an activation
/// whose first predecessor names another, activable operator of the
/// store.
pub open spec fn fusion_eligible(ops: Seq<(Seq<char>, Op)>, t: int) -> bool {
    &&& 0 <= t < ops.len()
    &&& ops[t].1.op_type.spec_is_activation()
    &&& ops[t].1.prevs@.len() > 0
    &&& ops[t].1.prevs@[0]@ != ops[t].0
    &&& has_key(ops, ops[t].1.prevs@[0]@)
    &&& crate::store::get_key(ops, ops[t].1.prevs@[0]@)->Some_0.op_type.spec_activable()
}

/// Whether an extra-attribute list is the fusion tag of the activation
/// kind `ot`: the activation's name first, then — for `HardSigmoid` —
/// its own scalar attribute pairs.
pub open spec fn fused_extra_matches(ea: Option<Vec<(String, String)>>, ot: OpType) -> bool {
    match ea {
        None => false,
        Some(l) => {
            &&& l@.len() >= 1
            &&& l@[0].0@ == "activation"@
            &&& l@[0].1@ == ot.kind_name()
            &&& (match ot {
                OpType::HardSigmoid { attr } => l@.len() == 1 + attr.attrs@.len() && (forall|
                    q: int,
                |
                    0 <= q < attr.attrs@.len() ==> (#[trigger] l@[q + 1]).0@ == attr.attrs@[q].0@
                        && l@[q + 1].1@ == attr.attrs@[q].1@),
                _ => l@.len() == 1,
            })
        },
    }
}

/// Evidence that `op` absorbed the activation at position `u` of the
/// connected store: that activation is gone from the result, `op`
/// carries its fusion tag, and `op` took over its output names.
pub open spec fn fusion_evidence(
    ops1: Seq<(Seq<char>, Op)>,
    fin: Seq<(Seq<char>, Op)>,
    u: int,
    op: Op,
) -> bool {
    &&& 0 <= u < ops1.len()
    &&& ops1[u].1.op_type.spec_is_activation()
    &&& !has_key(fin, ops1[u].0)
    &&& fused_extra_matches(op.extra_attr, ops1[u].1.op_type)
    &&& views_of(op.outputs@) == views_of(ops1[u].1.outputs@)
}

/// What fusion leaves of one surviving operator, against the connected
/// store: its name, kind, inputs and operator name are unchanged; a
/// surviving activation also keeps its output names; and its extras are
/// either untouched or the fusion tag of some removed activation whose
/// outputs it took over.
pub open spec fn surviving_entry_ok(
    ops1: Seq<(Seq<char>, Op)>,
    fin: Seq<(Seq<char>, Op)>,
    t: int,
) -> bool {
    let k = fin[t].0;
    let o1 = crate::store::get_key(ops1, k)->Some_0;
    &&& has_key(ops1, k)
    &&& fin[t].1.op_type == o1.op_type
    &&& fin[t].1.op_name == o1.op_name
    &&& fin[t].1.inputs == o1.inputs
    &&& fin[t].1.prevs@.len() == o1.prevs@.len()
    &&& (fin[t].1.op_type.spec_is_activation() ==> views_of(fin[t].1.outputs@) == views_of(
        o1.outputs@,
    ))
    &&& (fin[t].1.extra_attr == o1.extra_attr || (fin[t].1.op_type.spec_activable() && exists|
        u: int,
    | fusion_evidence(ops1, fin, u, fin[t].1)))
}

/// The pass never walks past an activation that is ready when its turn
/// comes: the first schedule entry that is fusion-eligible in the
/// connected store — with no eligible entry before it — is removed.
pub open spec fn first_eligible_removed(
    ops1: Seq<(Seq<char>, Op)>,
    schedule: Seq<String>,
    fin: Seq<(Seq<char>, Op)>,
) -> bool {
    forall|s0: int|
        #![trigger schedule[s0]]
        (0 <= s0 < schedule.len() && (forall|s1: int|
            0 <= s1 < s0 ==> !fusion_eligible(
                ops1,
                find_key(ops1, (#[trigger] schedule[s1])@),
            )) && fusion_eligible(ops1, find_key(ops1, schedule[s0]@))) ==> !has_key(
            fin,
            schedule[s0]@,
        )
}

/// The connected store edge inference builds from the registered one.
pub open spec fn edges_inferred(ops0: Seq<(Seq<char>, Op)>, ops1: Seq<(Seq<char>, Op)>) -> bool {
    &&& ops1.len() == ops0.len()
    &&& (forall|t: int|
        0 <= t < ops0.len() ==> {
            &&& (#[trigger] ops1[t]).0 == ops0[t].0
            &&& crate::graph::op_statics_eq(ops1[t].1, ops0[t].1)
            &&& views_of(ops1[t].1.nexts@) == views_of(ops0[t].1.nexts@)
                + crate::graph::added_nexts(ops0, t, ops0.len() as int)
            &&& views_of(ops1[t].1.prevs@) == views_of(ops0[t].1.prevs@)
                + crate::graph::added_prevs(ops0, t, ops0.len() as int)
        })
}

/// Whether the schedule reaches every operator of the connected store.
/// On an acyclic store whose operators all reach sinks, the sort's
/// contract provides this (see the schedule-coverage lemma beside the
/// sort).
pub open spec fn schedule_covers(ops1: Seq<(Seq<char>, Op)>, schedule: Seq<String>) -> bool {
    forall|j: int| 0 <= j < ops1.len() ==> contains_view(schedule, (#[trigger] ops1[j]).0)
}

/// What one optimizer run did, witnessed by the connected store and the
/// schedule it walked: only activations were removed, every survivor is
/// accounted for, the first schedule entry that was ready to fuse is
/// gone, and — whenever the schedule reaches the whole store — no
/// fusion-eligible activation survives at all.
pub open spec fn fused_outcome(
    ops1: Seq<(Seq<char>, Op)>,
    schedule: Seq<String>,
    fin: Seq<(Seq<char>, Op)>,
) -> bool {
    &&& (forall|u: int|
        0 <= u < ops1.len() && !has_key(fin, (#[trigger] ops1[u]).0)
            ==> ops1[u].1.op_type.spec_is_activation() && ops1[u].1.prevs@.len() > 0)
    &&& (forall|t: int| 0 <= t < fin.len() ==> #[trigger] surviving_entry_ok(ops1, fin, t))
    &&& first_eligible_removed(ops1, schedule, fin)
    &&& ((exists|u: int| 0 <= u < ops1.len() && !has_key(fin, (#[trigger] ops1[u]).0)) ==> (exists|
        t: int,
        u2: int,
    |
        0 <= t < fin.len() && fin[t].1.op_type.spec_activable() && fusion_evidence(
            ops1,
            fin,
            u2,
            fin[t].1,
        )))
    &&& (schedule_covers(ops1, schedule) ==> (forall|t: int|
        0 <= t < fin.len() ==> !(#[trigger] fusion_eligible(fin, t))))
}

/// Every name of a topologically ordered schedule is a store key.
proof fn lemma_schedule_names_present(ops: Seq<(Seq<char>, Op)>, sorted: Seq<String>)
    requires
        crate::gpu::topo_ordered(ops, sorted),
    ensures
        forall|s2: int| 0 <= s2 < sorted.len() ==> has_key(ops, (#[trigger] sorted[s2])@),
{
    assert forall|s2: int| 0 <= s2 < sorted.len() implies has_key(
        ops,
        (#[trigger] sorted[s2])@,
    ) by {
        assert(crate::gpu::topo_ordered_at(ops, sorted, s2));
    }
}

/// Before any fusion, every operator of the connected store accounts
/// for itself.
proof fn lemma_survivors_initial(ops1: Seq<(Seq<char>, Op)>)
    requires
        unique_keys(ops1),
    ensures
        forall|t: int| 0 <= t < ops1.len() ==> #[trigger] surviving_entry_ok(ops1, ops1, t),
{
    assert forall|t: int| 0 <= t < ops1.len() implies #[trigger] surviving_entry_ok(
        ops1,
        ops1,
        t,
    ) by {
        crate::store::lemma_find_key(ops1, ops1[t].0);
    }
}

/// Pointwise-equal keys carry uniqueness over.
proof fn lemma_keys_stay_unique(ops0: Seq<(Seq<char>, Op)>, ops1: Seq<(Seq<char>, Op)>)
    requires
        unique_keys(ops0),
        ops1.len() == ops0.len(),
        forall|t: int| 0 <= t < ops0.len() ==> (#[trigger] ops1[t]).0 == ops0[t].0,
    ensures
        unique_keys(ops1),
{
    assert forall|t: int, u: int| 0 <= t < u < ops1.len() implies ops1[t].0 != ops1[u].0 by {
        assert(ops1[t].0 == ops0[t].0);
        assert(ops1[u].0 == ops0[u].0);
    }
}

/// On a covered, duplicate-free schedule of the connected store, every
/// in-store predecessor stands at an earlier schedule position than its
/// operator, and every position is within range.
proof fn lemma_initial_order(ops1: Seq<(Seq<char>, Op)>, sorted: Seq<String>)
    requires
        unique_keys(ops1),
        crate::gpu::topo_ordered(ops1, sorted),
        crate::gpu::no_dup_names(sorted),
        schedule_covers(ops1, sorted),
    ensures
        forall|t: int, p: int|
            0 <= t < ops1.len() && 0 <= p < ops1[t].1.prevs@.len() && has_key(
                ops1,
                (#[trigger] ops1[t].1.prevs@[p])@,
            ) ==> crate::gpu::view_index(sorted, ops1[t].1.prevs@[p]@) < crate::gpu::view_index(
                sorted,
                ops1[t].0,
            ),
        forall|t: int|
            0 <= t < ops1.len() ==> crate::gpu::view_index(sorted, (#[trigger] ops1[t]).0) >= 0,
{
    assert forall|t: int, p: int|
        0 <= t < ops1.len() && 0 <= p < ops1[t].1.prevs@.len() && has_key(
            ops1,
            (#[trigger] ops1[t].1.prevs@[p])@,
        ) implies crate::gpu::view_index(sorted, ops1[t].1.prevs@[p]@) < crate::gpu::view_index(
        sorted,
        ops1[t].0,
    ) by {
        crate::gpu::lemma_view_index(sorted, ops1[t].0);
        let a = crate::gpu::view_index(sorted, ops1[t].0);
        assert(sorted[a]@ == ops1[t].0);
        assert(crate::gpu::topo_ordered_at(ops1, sorted, a));
        crate::store::lemma_find_key(ops1, ops1[t].0);
        assert(find_key(ops1, ops1[t].0) == t);
        assert(crate::store::get_key(ops1, sorted[a]@) == Some(ops1[t].1));
        let b = choose|b: int|
            0 <= b < a && sorted[b]@ == crate::store::get_key(
                ops1,
                sorted[a]@,
            )->Some_0.prevs@[p]@;
        crate::gpu::lemma_view_index_unique(sorted, ops1[t].1.prevs@[p]@, b);
    }
    assert forall|t: int| 0 <= t < ops1.len() implies crate::gpu::view_index(
        sorted,
        (#[trigger] ops1[t]).0,
    ) >= 0 by {
        crate::gpu::lemma_view_index(sorted, ops1[t].0);
    }
}

/// Bundles the pass's loop-exit facts into the stated outcome; in
/// particular, on a covered schedule every survivor was processed, so
/// none is still fusion-eligible.
proof fn lemma_pass_outcome(
    ops1: Seq<(Seq<char>, Op)>,
    schedule: Seq<String>,
    fin: Seq<(Seq<char>, Op)>,
)
    requires
        forall|u: int|
            0 <= u < ops1.len() && !has_key(fin, (#[trigger] ops1[u]).0)
                ==> ops1[u].1.op_type.spec_is_activation() && ops1[u].1.prevs@.len() > 0,
        forall|t: int| 0 <= t < fin.len() ==> #[trigger] surviving_entry_ok(ops1, fin, t),
        first_eligible_removed(ops1, schedule, fin),
        (exists|u: int| 0 <= u < ops1.len() && !has_key(fin, (#[trigger] ops1[u]).0)) ==> (exists|
            t: int,
            u2: int,
        |
            0 <= t < fin.len() && fin[t].1.op_type.spec_activable() && fusion_evidence(
                ops1,
                fin,
                u2,
                fin[t].1,
            )),
        schedule_covers(ops1, schedule) ==> (forall|t: int|
            0 <= t < fin.len() && crate::gpu::view_index(schedule, (#[trigger] fin[t]).0)
                < schedule.len() as int ==> !fusion_eligible(fin, t)),
    ensures
        fused_outcome(ops1, schedule, fin),
{
    if schedule_covers(ops1, schedule) {
        assert forall|t: int| 0 <= t < fin.len() implies !(#[trigger] fusion_eligible(
            fin,
            t,
        )) by {
            assert(surviving_entry_ok(ops1, fin, t));
            assert(has_key(ops1, fin[t].0));
            let w = choose|w: int| 0 <= w < ops1.len() && ops1[w].0 == fin[t].0;
            assert(contains_view(schedule, fin[t].0));
            crate::gpu::lemma_view_index(schedule, fin[t].0);
        }
    }
}

pub struct Optimizer {}

impl Optimizer {
    pub fn new() -> (r: Self) {
        Optimizer {  }
    }

    /// Infers the graph's edges, then walks a topological schedule and
    /// fuses activations: a `Relu`, `Sigmoid` or `HardSigmoid` whose
    /// first predecessor is an activable operator is folded into that
    /// predecessor — the predecessor is tagged with the activation's
    /// name (and, for `HardSigmoid`, its scalar attributes), takes over
    /// the activation's output names, and the activation is removed.
    /// Tensors are untouched, only activations are removed, no operator
    /// is invented or changes kind, and names stay unique; the connected
    /// store and schedule witnessing the pass are pinned existentially.
    #[verifier::rlimit(100)]
    #[verifier::spinoff_prover]
    #[verifier::loop_isolation(false)]
    pub fn optimize(&mut self, graph: Graph) -> (r: Result<Graph, GosonnxError>)
        requires
            unique_keys(graph.op_map@),
        ensures
            r is Ok,
            r is Ok ==> ({
                let g = r->Ok_0;
                &&& g.tensor_map == graph.tensor_map
                &&& g.output_tensor_map == graph.output_tensor_map
                &&& g.optional_output_tensors == graph.optional_output_tensors
                &&& unique_keys(g.op_map@)
                &&& g.op_map@.len() <= graph.op_map@.len()
                &&& (forall|t: int|
                    0 <= t < g.op_map@.len() ==> exists|u: int|
                        {
                            &&& 0 <= u < graph.op_map@.len()
                            &&& (#[trigger] g.op_map@[t]).0 == graph.op_map@[u].0
                            &&& g.op_map@[t].1.op_type == graph.op_map@[u].1.op_type
                            &&& g.op_map@[t].1.inputs == graph.op_map@[u].1.inputs
                            &&& g.op_map@[t].1.op_name == graph.op_map@[u].1.op_name
                        })
                &&& (exists|ops1: Seq<(Seq<char>, Op)>, schedule: Seq<String>|
                    {
                        &&& #[trigger] edges_inferred(graph.op_map@, ops1)
                        &&& unique_keys(ops1)
                        &&& #[trigger] crate::gpu::topo_ordered(ops1, schedule)
                        &&& crate::gpu::no_dup_names(schedule)
                        &&& (forall|rank: Map<Seq<char>, nat>, i: int|
                            #![trigger crate::gpu::ranked(ops1, rank), ops1[i]]
                            crate::gpu::ranked(ops1, rank) && 0 <= i < ops1.len()
                                && ops1[i].1.nexts@.len() == 0 ==> contains_view(
                                schedule,
                                ops1[i].0,
                            ))
                        &&& fused_outcome(ops1, schedule, g.op_map@)
                    })
            }),
    {
        let mut graph = graph;
        let ghost gin = graph;
        match graph.compile() {
            Ok(()) => {}
            Err(e) => {
                return Err(e);
            }
        }
        proof {
            lemma_keys_stay_unique(gin.op_map@, graph.op_map@);
        }
        let sorted = topo(&graph.op_map);
        let ghost ops1 = graph.op_map@;
        let ns = sorted.len();
        proof {
            lemma_survivors_initial(ops1);
            lemma_schedule_names_present(ops1, sorted@);
            if schedule_covers(ops1, sorted@) {
                lemma_initial_order(ops1, sorted@);
            }
        }
        for s in 0..ns
            invariant
                ns == sorted@.len(),
                graph.tensor_map == gin.tensor_map,
                graph.output_tensor_map == gin.output_tensor_map,
                graph.optional_output_tensors == gin.optional_output_tensors,
                unique_keys(graph.op_map@),
                graph.op_map@.len() <= gin.op_map@.len(),
                forall|t: int|
                    0 <= t < graph.op_map@.len() ==> exists|u: int|
                        {
                            &&& 0 <= u < gin.op_map@.len()
                            &&& (#[trigger] graph.op_map@[t]).0 == gin.op_map@[u].0
                            &&& graph.op_map@[t].1.op_type == gin.op_map@[u].1.op_type
                            &&& graph.op_map@[t].1.inputs == gin.op_map@[u].1.inputs
                            &&& graph.op_map@[t].1.op_name == gin.op_map@[u].1.op_name
                        },
                forall|t: int|
                    0 <= t < graph.op_map@.len() ==> #[trigger] surviving_entry_ok(
                        ops1,
                        graph.op_map@,
                        t,
                    ),
                forall|u: int|
                    0 <= u < ops1.len() && !has_key(graph.op_map@, (#[trigger] ops1[u]).0)
                        ==> ops1[u].1.op_type.spec_is_activation() && ops1[u].1.prevs@.len() > 0,
                (forall|s1: int|
                    0 <= s1 < s ==> !fusion_eligible(
                        ops1,
                        find_key(ops1, (#[trigger] sorted@[s1])@),
                    )) ==> graph.op_map@ == ops1,
                forall|s0: int|
                    #![trigger sorted@[s0]]
                    (0 <= s0 < s && (forall|s1: int|
                        0 <= s1 < s0 ==> !fusion_eligible(
                            ops1,
                            find_key(ops1, (#[trigger] sorted@[s1])@),
                        )) && fusion_eligible(ops1, find_key(ops1, sorted@[s0]@))) ==> !has_key(
                        graph.op_map@,
                        sorted@[s0]@,
                    ),
                forall|s2: int| s <= s2 < ns ==> has_key(graph.op_map@, (#[trigger] sorted@[s2])@),
                schedule_covers(ops1, sorted@) ==> (forall|t: int, p: int|
                    0 <= t < graph.op_map@.len() && 0 <= p < graph.op_map@[t].1.prevs@.len()
                        && has_key(graph.op_map@, (#[trigger] graph.op_map@[t].1.prevs@[p])@)
                        ==> crate::gpu::view_index(sorted@, graph.op_map@[t].1.prevs@[p]@)
                        < crate::gpu::view_index(sorted@, graph.op_map@[t].0)),
                schedule_covers(ops1, sorted@) ==> (forall|t: int|
                    0 <= t < graph.op_map@.len() && crate::gpu::view_index(
                        sorted@,
                        (#[trigger] graph.op_map@[t]).0,
                    ) < s ==> !fusion_eligible(graph.op_map@, t)),
                (exists|u: int| 0 <= u < ops1.len() && !has_key(graph.op_map@, (#[trigger] ops1[u]).0))
                    ==> (exists|t: int, u2: int|
                    0 <= t < graph.op_map@.len() && graph.op_map@[t].1.op_type.spec_activable()
                        && fusion_evidence(ops1, graph.op_map@, u2, graph.op_map@[t].1)),
        {
            let ghost cur0 = graph.op_map@;
            let curr_name = sorted[s].clone();
            let mut do_fuse = false;
            let mut prev_name = String::new();
            let mut extra: Vec<(String, String)> = Vec::new();
            let ghost gcurr: Op;
            match graph.op_map.get(curr_name.as_str()) {
                None => {
                    proof {
                        assert(has_key(cur0, sorted@[s as int]@));
                        assert(false);
                    }
                    return Err(GosonnxError::Error("Failed to optimize".to_owned()));
                }
                Some(curr) => {
                    proof {
                        gcurr = *curr;
                    }
                    if curr.prevs.len() >= 1 && curr.op_type.is_activation() {
                        prev_name = curr.prevs[0].clone();
                        if !crate::store::str_eq(prev_name.as_str(), curr_name.as_str()) {
                            let prev_activable = match graph.op_map.get(prev_name.as_str()) {
                                Some(p) => p.op_type.activable(),
                                None => false,
                            };
                            if prev_activable {
                                do_fuse = true;
                                extra.push(("activation".to_owned(), curr.op_type.to_string()));
                                if let OpType::HardSigmoid { attr } = &curr.op_type {
                                    let mut more = copy_pairs(&attr.attrs);
                                    extra.append(&mut more);
                                }
                            }
                        }
                    }
                }
            }
            proof {
                crate::store::lemma_find_key(cur0, curr_name@);
                assert(do_fuse == fusion_eligible(cur0, find_key(cur0, curr_name@)));
            }
            if do_fuse {
                let ghost ic0 = find_key(cur0, curr_name@);
                let ghost gextra = extra@;
                proof {
                    assert(gextra[0].0@ == "activation"@);
                    assert(gextra[0].1@ == gcurr.op_type.kind_name());
                    assert(fused_extra_matches(Some(extra), gcurr.op_type));
                }
                match graph.set_extra_attr(prev_name.as_str(), extra) {
                    Ok(()) => {}
                    Err(e) => {
                        proof {
                            assert(false);
                        }
                        return Err(e);
                    }
                }
                let ghost cur1 = graph.op_map@;
                proof {
                    crate::store::lemma_find_key(cur0, prev_name@);
                    assert(unique_keys(cur1)) by {
                        assert forall|t: int, u: int|
                            0 <= t < u < cur1.len() implies cur1[t].0 != cur1[u].0 by {
                            assert(cur1[t].0 == cur0[t].0);
                            assert(cur1[u].0 == cur0[u].0);
                        }
                    }
                    crate::store::lemma_find_key(cur1, curr_name@);
                    crate::store::lemma_find_key_same_keys(cur0, cur1, curr_name@);
                }
                match graph.remove_node_and_connect_neighbors(curr_name.as_str()) {
                    Ok(()) => {}
                    Err(e) => {
                        proof {
                            assert(has_key(cur1, curr_name@));
                            assert(cur1[find_key(cur1, curr_name@)].1.prevs == cur0[find_key(
                                cur0,
                                curr_name@,
                            )].1.prevs);
                            crate::store::lemma_find_key_same_keys(cur0, cur1, prev_name@);
                            assert(false);
                        }
                        return Err(e);
                    }
                }
                proof {
                    let cur2 = graph.op_map@;
                    let ic1 = find_key(cur1, curr_name@);
                    let ip0 = find_key(cur0, prev_name@);
                    let ghost uc = find_key(ops1, curr_name@);
                    assert(cur0[ic0].0 == curr_name@);
                    assert(surviving_entry_ok(ops1, cur0, ic0));
                    assert(has_key(ops1, curr_name@));
                    crate::store::lemma_find_key(ops1, curr_name@);
                    assert(ops1[uc].1.op_type == gcurr.op_type);
                    // the removed activation's name is gone from the result
                    assert(!has_key(cur2, curr_name@)) by {
                        if has_key(cur2, curr_name@) {
                            let w = choose|w: int| 0 <= w < cur2.len() && cur2[w].0 == curr_name@;
                            let w0 = if w < ic1 {
                                w
                            } else {
                                w + 1
                            };
                            assert(cur2[w].0 == cur1[w0].0);
                            assert(w0 != ic1);
                            assert(cur1[ic1].0 == curr_name@);
                        }
                    }
                    // keys only shrink across the two calls
                    assert forall|k: Seq<char>| has_key(cur2, k) implies has_key(cur0, k) by {
                        let w = choose|w: int| 0 <= w < cur2.len() && cur2[w].0 == k;
                        let w0 = if w < ic1 {
                            w
                        } else {
                            w + 1
                        };
                        assert(cur2[w].0 == cur1[w0].0);
                        assert(cur1[w0].0 == cur0[w0].0);
                    }
                    // and only the processed name is lost
                    assert forall|k: Seq<char>|
                        has_key(cur0, k) && k != curr_name@ implies has_key(cur2, k) by {
                        let w = choose|w: int| 0 <= w < cur0.len() && cur0[w].0 == k;
                        assert(cur1[w].0 == k);
                        assert(w != ic1);
                        if w < ic1 {
                            assert(cur2[w].0 == cur1[w].0);
                        } else {
                            assert(cur2[w - 1].0 == cur1[w].0);
                        }
                    }
                    assert forall|t: int|
                        0 <= t < cur2.len() implies #[trigger] surviving_entry_ok(
                        ops1,
                        cur2,
                        t,
                    ) by {
                        let t1 = if t < ic1 {
                            t
                        } else {
                            t + 1
                        };
                        assert(cur2[t].0 == cur1[t1].0);
                        assert(cur1[t1].0 == cur0[t1].0);
                        assert(surviving_entry_ok(ops1, cur0, t1));
                        let k = cur2[t].0;
                        if k == prev_name@ {
                            assert(t1 == ip0);
                            assert(cur1[t1].1.extra_attr == Some(extra));
                            assert(views_of(cur2[t].1.outputs@) == views_of(
                                cur1[ic1].1.outputs@,
                            ));
                            assert(cur1[ic1].1.outputs == cur0[ic0].1.outputs);
                            assert(views_of(cur0[ic0].1.outputs@) == views_of(
                                ops1[uc].1.outputs@,
                            ));
                            assert(fusion_evidence(ops1, cur2, uc, cur2[t].1));
                        } else {
                            assert(cur1[t1].1.extra_attr == cur0[t1].1.extra_attr);
                            assert(views_of(cur2[t].1.outputs@) == views_of(cur1[t1].1.outputs@));
                            assert(cur1[t1].1.outputs == cur0[t1].1.outputs);
                            if cur2[t].1.extra_attr == crate::store::get_key(
                                ops1,
                                k,
                            )->Some_0.extra_attr {
                            } else {
                                let u = choose|u: int| fusion_evidence(ops1, cur0, u, cur0[t1].1);
                                assert(fusion_evidence(ops1, cur2, u, cur2[t].1));
                            }
                        }
                    }
                    assert forall|u: int|
                        0 <= u < ops1.len() && !has_key(cur2, (#[trigger] ops1[u]).0) implies
                        ops1[u].1.op_type.spec_is_activation() && ops1[u].1.prevs@.len() > 0 by {
                        if has_key(cur0, ops1[u].0) {
                            assert(ops1[u].0 == curr_name@) by {
                                if ops1[u].0 != curr_name@ {
                                    let w = choose|w: int|
                                        0 <= w < cur0.len() && cur0[w].0 == ops1[u].0;
                                    assert(cur1[w].0 == ops1[u].0);
                                    let w2 = if w < ic1 {
                                        w
                                    } else {
                                        w - 1
                                    };
                                    assert(w != ic1);
                                    assert(cur2[w2].0 == ops1[u].0);
                                    assert(has_key(cur2, ops1[u].0));
                                }
                            }
                            assert(ops1[uc].0 == ops1[u].0);
                            assert(u == uc);
                            assert(cur0[ic0].1.prevs@.len() > 0);
                            assert(ops1[uc].1.prevs@.len() == cur0[ic0].1.prevs@.len());
                        }
                    }
                    // a removal leaves its producer behind, tagged
                    assert(prev_name@ != curr_name@);
                    assert(has_key(cur2, prev_name@));
                    crate::store::lemma_find_key(cur2, prev_name@);
                    let tp = find_key(cur2, prev_name@);
                    let tp1 = if tp < ic1 {
                        tp
                    } else {
                        tp + 1
                    };
                    assert(cur1[tp1].0 == prev_name@);
                    assert(tp1 == find_key(cur1, prev_name@)) by {
                        crate::store::lemma_find_key(cur1, prev_name@);
                        assert(cur1[find_key(cur1, prev_name@)].0 == prev_name@);
                    }
                    assert(tp1 == ip0) by {
                        crate::store::lemma_find_key_same_keys(cur0, cur1, prev_name@);
                    }
                    assert(cur2[tp].1.extra_attr == Some(extra));
                    assert(fused_extra_matches(cur2[tp].1.extra_attr, ops1[uc].1.op_type));
                    assert(views_of(cur2[tp].1.outputs@) == views_of(ops1[uc].1.outputs@)) by {
                        assert(views_of(cur2[tp].1.outputs@) == views_of(cur1[ic1].1.outputs@));
                        assert(cur1[ic1].1.outputs == cur0[ic0].1.outputs);
                        assert(views_of(cur0[ic0].1.outputs@) == views_of(ops1[uc].1.outputs@));
                    }
                    assert(cur2[tp].1.op_type.spec_activable()) by {
                        assert(cur2[tp].1.op_type == cur1[tp1].1.op_type);
                        assert(cur1[tp1].1.op_type == cur0[ip0].1.op_type);
                        assert(crate::store::get_key(cur0, prev_name@) == Some(cur0[ip0].1));
                    }
                    assert(fusion_evidence(ops1, cur2, uc, cur2[tp].1));
                    if schedule_covers(ops1, sorted@) {
                        assert forall|t: int|
                            0 <= t < cur2.len() && crate::gpu::view_index(
                                sorted@,
                                (#[trigger] cur2[t]).0,
                            ) < s + 1 implies !fusion_eligible(cur2, t) by {
                            let t1 = if t < ic1 {
                                t
                            } else {
                                t + 1
                            };
                            let k = cur2[t].0;
                            assert(k == cur0[t1].0);
                            assert(surviving_entry_ok(ops1, cur0, t1));
                            assert(has_key(ops1, k));
                            assert(contains_view(sorted@, k));
                            crate::gpu::lemma_view_index(sorted@, k);
                            let vk = crate::gpu::view_index(sorted@, k);
                            assert(sorted@[vk]@ == k);
                            if vk == s {
                                assert(k == curr_name@);
                                assert(has_key(cur2, curr_name@));
                                assert(false);
                            } else {
                                assert(vk < s);
                                assert(!fusion_eligible(cur0, t1));
                                if fusion_eligible(cur2, t) {
                                    assert(cur2[t].1.prevs@ == cur0[t1].1.prevs@) by {
                                        if contains_view(cur1[ic1].1.nexts@, k) {
                                            assert forall|p: int|
                                                0 <= p < cur0[t1].1.prevs@.len() implies
                                                cur0[t1].1.prevs@[p]@ != curr_name@ by {
                                                if cur0[t1].1.prevs@[p]@ == curr_name@ {
                                                    crate::gpu::lemma_view_index_unique(
                                                        sorted@,
                                                        curr_name@,
                                                        s as int,
                                                    );
                                                    assert(has_key(cur0, curr_name@));
                                                    assert(crate::gpu::view_index(
                                                        sorted@,
                                                        cur0[t1].1.prevs@[p]@,
                                                    ) < vk);
                                                    assert(false);
                                                }
                                            }
                                            assert(cur2[t].1.prevs@ =~= cur0[t1].1.prevs@);
                                        }
                                    }
                                    let prod = cur2[t].1.prevs@[0]@;
                                    assert(has_key(cur2, prod));
                                    assert(has_key(cur0, prod));
                                    crate::store::lemma_find_key(cur2, prod);
                                    let wp2 = find_key(cur2, prod);
                                    let wp1 = if wp2 < ic1 {
                                        wp2
                                    } else {
                                        wp2 + 1
                                    };
                                    assert(cur2[wp2].0 == prod);
                                    assert(cur0[wp1].0 == prod);
                                    crate::store::lemma_find_key(cur0, prod);
                                    assert(find_key(cur0, prod) == wp1);
                                    assert(crate::store::get_key(cur0, prod)->Some_0.op_type
                                        == crate::store::get_key(cur2, prod)->Some_0.op_type);
                                    assert(fusion_eligible(cur0, t1));
                                    assert(false);
                                }
                            }
                        }
                    }
                }
            } else {
                proof {
                    if schedule_covers(ops1, sorted@) {
                        assert forall|t: int|
                            0 <= t < graph.op_map@.len() && crate::gpu::view_index(
                                sorted@,
                                (#[trigger] graph.op_map@[t]).0,
                            ) < s + 1 implies !fusion_eligible(graph.op_map@, t) by {
                            let k = graph.op_map@[t].0;
                            assert(surviving_entry_ok(ops1, graph.op_map@, t));
                            assert(has_key(ops1, k));
                            let w = choose|w: int| 0 <= w < ops1.len() && ops1[w].0 == k;
                            assert(contains_view(sorted@, k));
                            crate::gpu::lemma_view_index(sorted@, k);
                            let vk = crate::gpu::view_index(sorted@, k);
                            if vk == s {
                                assert(sorted@[vk]@ == k);
                                assert(k == curr_name@);
                                crate::store::lemma_find_key(cur0, curr_name@);
                                assert(cur0[find_key(cur0, curr_name@)].0 == k);
                                assert(t == find_key(cur0, curr_name@));
                                assert(!fusion_eligible(cur0, t));
                            }
                        }
                    }
                }
            }
        }
        proof {
            assert(edges_inferred(gin.op_map@, ops1));
            lemma_pass_outcome(ops1, sorted@, graph.op_map@);
        }
        Ok(graph)
    }
}

} // verus!
