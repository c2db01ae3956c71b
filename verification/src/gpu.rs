use vstd::prelude::*;
use vstd::string::StringExecFns;

use crate::errors::GosonnxError;
use crate::graph::{spec_terminal_outputs, Graph, Op, Tensor};
use crate::ops::OpType;
use crate::store::{get_key, has_key, Store};
use crate::utils::{
    contains_string, contains_view, copy_strings, encode_u32s, encode_u64s, le_bytes_32,
    le_bytes_64, shape_element_count, shape_product, views_of,
};

verus! {

/// The byte length of one element of a tensor.
pub open spec fn elem_size(t: Tensor) -> int {
    match t {
        Tensor::F32 { .. } => 4,
        Tensor::F64 { .. } => 8,
        Tensor::I64 { .. } => 8,
    }
}

/// A sequence of zero bytes.
pub open spec fn zero_bytes(n: int) -> Seq<u8> {
    Seq::new(n as nat, |i: int| 0u8)
}

/// Whether the machine can lay out a tensor's storage buffer: the
/// element count must fit `usize` and the byte length of the values (or
/// of the zero fill) must fit as well.
pub open spec fn storage_encodable(t: Tensor) -> bool {
    let s = t.spec_shape();
    &&& (forall|j: int| 0 <= j < s.len() ==> s[j] >= 0)
    &&& shape_product(s) <= usize::MAX
    &&& (match t {
        Tensor::F32 { values: Some(v), .. } => v@.len() <= (usize::MAX as int) / 4,
        Tensor::F64 { values: Some(v), .. } => v@.len() <= (usize::MAX as int) / 8,
        Tensor::I64 { values: Some(v), .. } => v@.len() <= (usize::MAX as int) / 8,
        Tensor::F32 { values: None, .. } => (if shape_product(s) > 0 {
            shape_product(s)
        } else {
            1
        }) <= (usize::MAX as int) / 4,
        Tensor::F64 { values: None, .. } => (if shape_product(s) > 0 {
            shape_product(s)
        } else {
            1
        }) <= (usize::MAX as int) / 8,
        Tensor::I64 { values: None, .. } => (if shape_product(s) > 0 {
            shape_product(s)
        } else {
            1
        }) <= (usize::MAX as int) / 8,
    })
}

/// The initial contents of a tensor's storage buffer: its values as
/// little-endian bytes; zeroes sized to the element count when values are
/// absent; and a 4-byte placeholder when the tensor is empty, since the
/// device refuses zero-sized bindings.
pub open spec fn storage_bytes(t: Tensor) -> Seq<u8> {
    match t {
        Tensor::F32 { values: Some(v), .. } => if v@.len() == 0 {
            zero_bytes(4)
        } else {
            le_bytes_32(v@)
        },
        Tensor::F64 { values: Some(v), .. } => if v@.len() == 0 {
            zero_bytes(4)
        } else {
            le_bytes_64(v@)
        },
        Tensor::I64 { values: Some(v), .. } => if v@.len() == 0 {
            zero_bytes(4)
        } else {
            le_bytes_64(v@.map_values(|x: i64| x as u64))
        },
        Tensor::F32 { values: None, shape } => zero_bytes(
            4 * (if shape_product(shape@) > 0 {
                shape_product(shape@)
            } else {
                1
            }),
        ),
        Tensor::F64 { values: None, shape } => zero_bytes(
            8 * (if shape_product(shape@) > 0 {
                shape_product(shape@)
            } else {
                1
            }),
        ),
        Tensor::I64 { values: None, shape } => zero_bytes(
            8 * (if shape_product(shape@) > 0 {
                shape_product(shape@)
            } else {
                1
            }),
        ),
    }
}

/// One storage buffer to allocate: the tensor name it is keyed by and its
/// initial contents.
#[derive(Debug)]
pub struct BufferPlan {
    pub name: String,
    pub data: Vec<u8>,
}

/// One staging buffer to allocate for readback, sized to the tensor's
/// exact byte length.
#[derive(Debug)]
pub struct StagingPlan {
    pub name: String,
    pub size: usize,
}

/// One compute pass: the operator it runs, its rendered shader source,
/// the storage buffers to bind — inputs first, then outputs, in declared
/// order — and the workgroup counts to dispatch.
#[derive(Debug)]
pub struct PassPlan {
    pub op_name: String,
    pub shader_source: String,
    pub buffers: Vec<String>,
    pub workgroups: [u32; 3],
}

/// Everything one run of the graph asks of the device, in order: the
/// storage buffers, the staging buffers for the terminal outputs, the
/// passes in topological order, and the tensor names to read back.
#[derive(Debug)]
pub struct ExecutionPlan {
    pub storage: Vec<BufferPlan>,
    pub staging: Vec<StagingPlan>,
    pub passes: Vec<PassPlan>,
    pub outputs: Vec<String>,
}

/// The embedded shader template directory, as plain named files: the two
/// shared elementwise bases plus one template per operator kind.
pub struct ShaderDir {
    pub files: Store<String>,
}

/// No two of the names read the same.
pub open spec fn no_dup_names(s: Seq<String>) -> bool {
    forall|a: int, b: int| 0 <= a < b < s.len() ==> s[a]@ != s[b]@
}

/// The operator at position `a` of the schedule exists in the store, and
/// every predecessor of it that exists in the store stands earlier.
pub open spec fn topo_ordered_at(ops: Seq<(Seq<char>, Op)>, sorted: Seq<String>, a: int) -> bool {
    &&& has_key(ops, sorted[a]@)
    &&& (forall|p: int|
        #![trigger get_key(ops, sorted[a]@)->Some_0.prevs@[p]]
        (0 <= p < get_key(ops, sorted[a]@)->Some_0.prevs@.len() && has_key(
            ops,
            get_key(ops, sorted[a]@)->Some_0.prevs@[p]@,
        )) ==> exists|b: int|
            0 <= b < a && sorted[b]@ == get_key(ops, sorted[a]@)->Some_0.prevs@[p]@)
}

/// Every predecessor index precedes its successor index: the schedule
/// lists an operator only after every predecessor of it that the store
/// holds.
pub open spec fn topo_ordered(ops: Seq<(Seq<char>, Op)>, sorted: Seq<String>) -> bool {
    forall|a: int| 0 <= a < sorted.len() ==> #[trigger] topo_ordered_at(ops, sorted, a)
}

/// The first position of the schedule whose name reads `k`; the length
/// when none does.
pub open spec fn view_index(s: Seq<String>, k: Seq<char>) -> int
    decreases s.len(),
{
    if s.len() == 0 {
        0
    } else if s[0]@ == k {
        0
    } else {
        1 + view_index(s.drop_first(), k)
    }
}

/// `view_index` points at the first occurrence, or past the end.
pub proof fn lemma_view_index(s: Seq<String>, k: Seq<char>)
    ensures
        contains_view(s, k) ==> {
            &&& 0 <= view_index(s, k) < s.len()
            &&& s[view_index(s, k)]@ == k
            &&& forall|j: int| 0 <= j < view_index(s, k) ==> s[j]@ != k
        },
        !contains_view(s, k) ==> view_index(s, k) == s.len(),
    decreases s.len(),
{
    if s.len() > 0 && s[0]@ != k {
        lemma_view_index(s.drop_first(), k);
        assert(forall|i: int| 0 < i < s.len() ==> s.drop_first()[i - 1] == s[i]);
        if contains_view(s, k) {
            let w = choose|i: int|
                0 <= i < crate::utils::views_of(s).len() && crate::utils::views_of(s)[i] == k;
            assert(s[w]@ == k);
            assert(s.drop_first()[w - 1]@ == k);
            assert(crate::utils::views_of(s.drop_first())[w - 1] == k);
            assert(contains_view(s.drop_first(), k));
        }
        if contains_view(s.drop_first(), k) {
            let w = choose|i: int|
                0 <= i < crate::utils::views_of(s.drop_first()).len() && crate::utils::views_of(
                    s.drop_first(),
                )[i] == k;
            assert(s.drop_first()[w]@ == k);
            assert(s[w + 1]@ == k);
            assert(crate::utils::views_of(s)[w + 1] == k);
            assert(contains_view(s, k));
        }
    } else if s.len() > 0 {
        assert(crate::utils::views_of(s)[0] == k);
        assert(contains_view(s, k));
    }
}

/// In a duplicate-free schedule, any occurrence is the first one.
pub proof fn lemma_view_index_unique(s: Seq<String>, k: Seq<char>, b: int)
    requires
        no_dup_names(s),
        0 <= b < s.len(),
        s[b]@ == k,
    ensures
        view_index(s, k) == b,
        contains_view(s, k),
{
    assert(crate::utils::views_of(s)[b] == k);
    assert(contains_view(s, k));
    lemma_view_index(s, k);
    let v = view_index(s, k);
    assert(s[v]@ == k);
    if v != b {
        if v < b {
            assert(s[v]@ != s[b]@);
        } else {
            assert(s[b]@ != s[v]@);
        }
        assert(false);
    }
}

/// A ranking that witnesses the store's acyclicity: every operator ranks
/// below the store's size and every in-store predecessor ranks strictly
/// lower. Any acyclic, finite store admits one (rank by longest chain of
/// predecessors).
pub open spec fn ranked(ops: Seq<(Seq<char>, Op)>, rank: Map<Seq<char>, nat>) -> bool {
    &&& (forall|i: int|
        0 <= i < ops.len() ==> rank.dom().contains((#[trigger] ops[i]).0) && rank[ops[i].0]
            < ops.len())
    &&& (forall|i: int, p: int|
        0 <= i < ops.len() && 0 <= p < ops[i].1.prevs@.len() && has_key(
            ops,
            (#[trigger] ops[i].1.prevs@[p])@,
        ) ==> rank[ops[i].1.prevs@[p]@] < rank[ops[i].0])
}

/// One step of the depth-first walk: visits the predecessors of `root`
/// first, then emits `root` — skipping operators already emitted. `fuel`
/// bounds the recursion depth; one unit per operator suffices on an
/// acyclic graph.
pub fn topo_helper(op_map: &Store<Op>, sorted: &mut Vec<String>, root: &String, fuel: u64)
    requires
        topo_ordered(op_map@, old(sorted)@),
        no_dup_names(old(sorted)@),
    ensures
        old(sorted)@.len() <= final(sorted)@.len(),
        final(sorted)@.take(old(sorted)@.len() as int) == old(sorted)@,
        topo_ordered(op_map@, final(sorted)@),
        no_dup_names(final(sorted)@),
        forall|rank: Map<Seq<char>, nat>|
            (#[trigger] ranked(op_map@, rank)) && has_key(op_map@, root@) && rank[root@] < fuel
                ==> contains_view(final(sorted)@, root@),
    decreases fuel,
{
    if fuel == 0 {
        return ;
    }
    if contains_string(sorted, root.as_str()) {
        return ;
    }
    let found = op_map.get(root.as_str());
    match found {
        None => {}
        Some(op) => {
            let np = op.prevs.len();
            let ghost orig = sorted@;
            for t in 0..np
                invariant
                    np == op.prevs@.len(),
                    get_key(op_map@, root@) == Some(*op),
                    topo_ordered(op_map@, sorted@),
                    no_dup_names(sorted@),
                    orig.len() <= sorted@.len(),
                    sorted@.take(orig.len() as int) == orig,
                    fuel >= 1,
                    forall|rank: Map<Seq<char>, nat>, q: int|
                        #![trigger ranked(op_map@, rank), op.prevs@[q]]
                        ranked(op_map@, rank) && 0 <= q < t && has_key(op_map@, op.prevs@[q]@)
                            && rank[op.prevs@[q]@] < fuel - 1 ==> contains_view(
                            sorted@,
                            op.prevs@[q]@,
                        ),
            {
                let ghost mid = sorted@;
                topo_helper(op_map, sorted, &op.prevs[t], fuel - 1);
                proof {
                    assert(sorted@.take(orig.len() as int) =~= mid.take(orig.len() as int));
                    assert forall|rank: Map<Seq<char>, nat>, q: int|
                        #![trigger ranked(op_map@, rank), op.prevs@[q]]
                        ranked(op_map@, rank) && 0 <= q < t + 1 && has_key(op_map@, op.prevs@[q]@)
                            && rank[op.prevs@[q]@] < fuel - 1 implies contains_view(
                        sorted@,
                        op.prevs@[q]@,
                    ) by {
                        if q < t {
                            assert(contains_view(mid, op.prevs@[q]@));
                            crate::utils::lemma_contains_view_prefix(mid, sorted@, op.prevs@[q]@);
                        }
                    }
                }
            }
            let mut all_in = true;
            for t in 0..np
                invariant
                    np == op.prevs@.len(),
                    get_key(op_map@, root@) == Some(*op),
                    all_in == (forall|q: int|
                        0 <= q < t ==> (has_key(op_map@, op.prevs@[q]@) ==> contains_view(
                            sorted@,
                            op.prevs@[q]@,
                        ))),
            {
                if op_map.contains_key(op.prevs[t].as_str()) && !contains_string(
                    sorted,
                    op.prevs[t].as_str(),
                ) {
                    all_in = false;
                }
            }
            let already = contains_string(sorted, root.as_str());
            if all_in && !already {
                let ghost pre = sorted@;
                sorted.push(root.clone());
                proof {
                    assert(sorted@.take(orig.len() as int) =~= pre.take(orig.len() as int));
                    assert forall|a: int| 0 <= a < sorted@.len() implies #[trigger] topo_ordered_at(
                        op_map@,
                        sorted@,
                        a,
                    ) by {
                        if a < pre.len() {
                            assert(topo_ordered_at(op_map@, pre, a));
                            assert forall|b: int| 0 <= b < a implies sorted@[b] == pre[b] by {}
                        } else {
                            assert(sorted@[a]@ == root@);
                            let rop = get_key(op_map@, root@)->Some_0;
                            assert(rop == *op);
                            assert forall|p: int|
                                #![trigger rop.prevs@[p]]
                                (0 <= p < rop.prevs@.len() && has_key(
                                    op_map@,
                                    rop.prevs@[p]@,
                                )) implies exists|b: int|
                                0 <= b < a && sorted@[b]@ == rop.prevs@[p]@ by {
                                assert(contains_view(pre, op.prevs@[p]@));
                                let w = choose|w: int|
                                    0 <= w < crate::utils::views_of(pre).len()
                                        && crate::utils::views_of(pre)[w] == op.prevs@[p]@;
                                assert(sorted@[w]@ == rop.prevs@[p]@);
                            }
                        }
                    }
                    assert forall|a: int, b: int|
                        0 <= a < b < sorted@.len() implies sorted@[a]@ != sorted@[b]@ by {
                        if b == pre.len() as int {
                            assert(!contains_view(pre, root@));
                            assert(crate::utils::views_of(pre)[a] == pre[a]@);
                        }
                    }
                    assert(sorted@[pre.len() as int]@ == root@);
                    assert(crate::utils::views_of(sorted@)[pre.len() as int] == root@);
                    assert(contains_view(sorted@, root@));
                }
            }
            proof {
                assert forall|rank: Map<Seq<char>, nat>|
                    (#[trigger] ranked(op_map@, rank)) && has_key(op_map@, root@) && rank[root@]
                        < fuel implies contains_view(sorted@, root@) by {
                    crate::store::lemma_find_key(op_map@, root@);
                    let ir = crate::store::find_key(op_map@, root@);
                    assert(op_map@[ir].0 == root@);
                    assert(op_map@[ir].1 == *op);
                    if !all_in {
                        assert forall|q: int|
                            0 <= q < np && has_key(
                                op_map@,
                                (#[trigger] op.prevs@[q])@,
                            ) implies contains_view(sorted@, op.prevs@[q]@) by {
                            assert(op_map@[ir].1.prevs@[q] == op.prevs@[q]);
                            assert(rank[op.prevs@[q]@] < rank[root@]);
                        }
                        assert(all_in);
                        assert(false);
                    } else if already {
                    } else {
                        assert(contains_view(sorted@, root@));
                    }
                }
            }
        }
    }
}

/// Depth-first topological schedule: walks from every sink — an operator
/// with no successors — visiting predecessors first, so every predecessor
/// that the store holds precedes its successor, and no name is emitted
/// twice.
pub fn topo(op_map: &Store<Op>) -> (r: Vec<String>)
    ensures
        topo_ordered(op_map@, r@),
        no_dup_names(r@),
        forall|rank: Map<Seq<char>, nat>, i: int|
            #![trigger ranked(op_map@, rank), op_map@[i]]
            ranked(op_map@, rank) && 0 <= i < op_map@.len() && op_map@[i].1.nexts@.len() == 0
                ==> contains_view(r@, op_map@[i].0),
{
    let n = op_map.len();
    let mut terminals: Vec<String> = Vec::new();
    for i in 0..n
        invariant
            n == op_map@.len(),
            forall|j: int| 0 <= j < terminals@.len() ==> has_key(op_map@, terminals@[j]@),
            forall|j: int|
                0 <= j < i && (#[trigger] op_map@[j]).1.nexts@.len() == 0 ==> contains_view(
                    terminals@,
                    op_map@[j].0,
                ),
    {
        let op = op_map.value_at(i);
        if op.nexts.len() == 0 {
            let ghost pre = terminals@;
            terminals.push(op_map.key_at(i).clone());
            proof {
                assert(terminals@[pre.len() as int]@ == op_map@[i as int].0);
                assert(crate::utils::views_of(terminals@)[pre.len() as int] == op_map@[i as int].0);
                assert(terminals@.take(pre.len() as int) =~= pre);
                assert forall|j: int|
                    0 <= j < i + 1 && (#[trigger] op_map@[j]).1.nexts@.len()
                        == 0 implies contains_view(terminals@, op_map@[j].0) by {
                    if j < i {
                        crate::utils::lemma_contains_view_prefix(pre, terminals@, op_map@[j].0);
                    }
                }
            }
        }
    }
    let mut sorted: Vec<String> = Vec::new();
    let fuel: u64 = if n < u64::MAX as usize {
        (n as u64) + 1
    } else {
        u64::MAX
    };
    let nt = terminals.len();
    for t in 0..nt
        invariant
            nt == terminals@.len(),
            n == op_map@.len(),
            n <= fuel,
            topo_ordered(op_map@, sorted@),
            no_dup_names(sorted@),
            forall|j: int| 0 <= j < nt ==> has_key(op_map@, (#[trigger] terminals@[j])@),
            forall|j: int|
                0 <= j < n && (#[trigger] op_map@[j]).1.nexts@.len() == 0 ==> contains_view(
                    terminals@,
                    op_map@[j].0,
                ),
            forall|rank: Map<Seq<char>, nat>, j: int|
                #![trigger ranked(op_map@, rank), terminals@[j]]
                ranked(op_map@, rank) && 0 <= j < t ==> contains_view(sorted@, terminals@[j]@),
    {
        let ghost mid = sorted@;
        topo_helper(op_map, &mut sorted, &terminals[t], fuel);
        proof {
            assert forall|rank: Map<Seq<char>, nat>, j: int|
                #![trigger ranked(op_map@, rank), terminals@[j]]
                ranked(op_map@, rank) && 0 <= j < t + 1 implies contains_view(
                sorted@,
                terminals@[j]@,
            ) by {
                if j < t {
                    crate::utils::lemma_contains_view_prefix(mid, sorted@, terminals@[j]@);
                } else {
                    let w = choose|w: int|
                        0 <= w < op_map@.len() && op_map@[w].0 == terminals@[j]@;
                    assert(rank[terminals@[j]@] < op_map@.len());
                }
            }
        }
    }
    proof {
        assert forall|rank: Map<Seq<char>, nat>, i: int|
            #![trigger ranked(op_map@, rank), op_map@[i]]
            ranked(op_map@, rank) && 0 <= i < op_map@.len() && op_map@[i].1.nexts@.len()
                == 0 implies contains_view(sorted@, op_map@[i].0) by {
            assert(contains_view(terminals@, op_map@[i].0));
            let w = choose|w: int|
                0 <= w < crate::utils::views_of(terminals@).len() && crate::utils::views_of(
                    terminals@,
                )[w] == op_map@[i].0;
            assert(terminals@[w]@ == op_map@[i].0);
        }
    }
    sorted
}

/// Whether the operator named `k` reaches a sink in at most `d` steps of
/// successor edges: it is a sink itself, or some operator that lists it
/// as a predecessor reaches a sink in fewer steps.
pub open spec fn reaches_sink(ops: Seq<(Seq<char>, Op)>, k: Seq<char>, d: nat) -> bool
    decreases d,
{
    has_key(ops, k) && (get_key(ops, k)->Some_0.nexts@.len() == 0 || (d > 0 && exists|i: int, p: int|
        0 <= i < ops.len() && 0 <= p < ops[i].1.prevs@.len() && (#[trigger] ops[i].1.prevs@[p])@
            == k && reaches_sink(ops, ops[i].0, (d - 1) as nat)))
}

/// The schedule covers the walkable graph: a schedule that holds every
/// sink and lists an operator only after its in-store predecessors — as
/// the sort's contract promises on a ranked store — holds every operator
/// from which a sink is reachable. On a store where every operator
/// reaches a sink, the schedule is therefore a duplicate-free
/// arrangement of all the store's names.
pub proof fn lemma_topo_schedule_covers(
    ops: Seq<(Seq<char>, Op)>,
    sorted: Seq<String>,
    k: Seq<char>,
    d: nat,
)
    requires
        crate::store::unique_keys(ops),
        topo_ordered(ops, sorted),
        forall|i: int|
            0 <= i < ops.len() && (#[trigger] ops[i]).1.nexts@.len() == 0 ==> contains_view(
                sorted,
                ops[i].0,
            ),
        reaches_sink(ops, k, d),
    ensures
        contains_view(sorted, k),
    decreases d,
{
    crate::store::lemma_find_key(ops, k);
    let ik = crate::store::find_key(ops, k);
    if get_key(ops, k)->Some_0.nexts@.len() == 0 {
        assert(ops[ik].1.nexts@.len() == 0);
    } else {
        let (i, p) = choose|i: int, p: int|
            0 <= i < ops.len() && 0 <= p < ops[i].1.prevs@.len()
                && (#[trigger] ops[i].1.prevs@[p])@ == k && reaches_sink(
                ops,
                ops[i].0,
                (d - 1) as nat,
            );
        lemma_topo_schedule_covers(ops, sorted, ops[i].0, (d - 1) as nat);
        let a = choose|a: int|
            0 <= a < crate::utils::views_of(sorted).len() && crate::utils::views_of(sorted)[a]
                == ops[i].0;
        assert(sorted[a]@ == ops[i].0);
        assert(topo_ordered_at(ops, sorted, a));
        crate::store::lemma_find_key(ops, ops[i].0);
        let ii = crate::store::find_key(ops, ops[i].0);
        assert(ops[ii].0 == ops[i].0);
        assert(ii == i);
        assert(get_key(ops, sorted[a]@)->Some_0 == ops[i].1);
        assert(get_key(ops, sorted[a]@)->Some_0.prevs@[p]@ == k);
        let b = choose|b: int|
            0 <= b < a && sorted[b]@ == get_key(ops, sorted[a]@)->Some_0.prevs@[p]@;
        assert(crate::utils::views_of(sorted)[b] == k);
    }
}

/// The byte length of a tensor's staging buffer: its exact value bytes.
pub open spec fn staging_size(t: Tensor) -> int {
    elem_size(t) * shape_product(t.spec_shape())
}

/// Encodes a tensor's initial storage bytes; fails exactly when the
/// machine cannot hold them.
fn storage_data(t: &Tensor) -> (r: Result<Vec<u8>, GosonnxError>)
    ensures
        (r is Ok) <==> storage_encodable(*t),
        r is Ok ==> r->Ok_0@ == storage_bytes(*t),
        r is Err ==> r->Err_0 is Error,
{
    let count = match crate::utils::tensor_len(t) {
        Ok(n) => n,
        Err(m) => {
            return Err(GosonnxError::Error(m));
        }
    };
    match t {
        Tensor::F32 { values: Some(v), .. } => {
            if v.len() == 0 {
                let mut z: Vec<u8> = Vec::new();
                z.push(0);
                z.push(0);
                z.push(0);
                z.push(0);
                proof {
                    assert(z@ =~= zero_bytes(4));
                }
                Ok(z)
            } else {
                if v.len() > usize::MAX / 4 {
                    return Err(GosonnxError::Error("tensor bytes exceed the machine".to_owned()));
                }
                Ok(encode_u32s(v))
            }
        }
        Tensor::F64 { values: Some(v), .. } => {
            if v.len() == 0 {
                let mut z: Vec<u8> = Vec::new();
                z.push(0);
                z.push(0);
                z.push(0);
                z.push(0);
                proof {
                    assert(z@ =~= zero_bytes(4));
                }
                Ok(z)
            } else {
                if v.len() > usize::MAX / 8 {
                    return Err(GosonnxError::Error("tensor bytes exceed the machine".to_owned()));
                }
                Ok(encode_u64s(v))
            }
        }
        Tensor::I64 { values: Some(v), .. } => {
            if v.len() == 0 {
                let mut z: Vec<u8> = Vec::new();
                z.push(0);
                z.push(0);
                z.push(0);
                z.push(0);
                proof {
                    assert(z@ =~= zero_bytes(4));
                }
                Ok(z)
            } else {
                if v.len() > usize::MAX / 8 {
                    return Err(GosonnxError::Error("tensor bytes exceed the machine".to_owned()));
                }
                let mut words: Vec<u64> = Vec::new();
                let n = v.len();
                for i in 0..n
                    invariant
                        n == v@.len(),
                        words@ == v@.take(i as int).map_values(|x: i64| x as u64),
                {
                    words.push(v[i] as u64);
                    assert(words@ =~= v@.take(i + 1).map_values(|x: i64| x as u64));
                }
                assert(v@.take(n as int) =~= v@);
                Ok(encode_u64s(&words))
            }
        }
        Tensor::F32 { values: None, .. } => {
            let n = if count > 0 {
                count
            } else {
                1
            };
            if n > usize::MAX / 4 {
                return Err(GosonnxError::Error("tensor bytes exceed the machine".to_owned()));
            }
            Ok(zero_fill(4 * n))
        }
        Tensor::F64 { values: None, .. } => {
            let n = if count > 0 {
                count
            } else {
                1
            };
            if n > usize::MAX / 8 {
                return Err(GosonnxError::Error("tensor bytes exceed the machine".to_owned()));
            }
            Ok(zero_fill(8 * n))
        }
        Tensor::I64 { values: None, .. } => {
            let n = if count > 0 {
                count
            } else {
                1
            };
            if n > usize::MAX / 8 {
                return Err(GosonnxError::Error("tensor bytes exceed the machine".to_owned()));
            }
            Ok(zero_fill(8 * n))
        }
    }
}

/// A buffer of `n` zero bytes.
fn zero_fill(n: usize) -> (r: Vec<u8>)
    ensures
        r@ == zero_bytes(n as int),
{
    let mut r: Vec<u8> = Vec::new();
    for i in 0..n
        invariant
            r@ == zero_bytes(i as int),
    {
        r.push(0);
        assert(r@ =~= zero_bytes(i + 1));
    }
    r
}

impl Graph {
    /// Lays out one run of the graph: infers the edges, sizes a storage
    /// buffer per tensor, a staging buffer per terminal or marked output,
    /// and compiles every operator into a pass, in a topological order of
    /// the operator store.
    #[verifier::rlimit(100)]
    #[verifier::loop_isolation(false)]
    pub fn plan(&mut self, shader_dir: &ShaderDir) -> (r: Result<ExecutionPlan, GosonnxError>)
        ensures
            r is Ok ==> {
                let p = r->Ok_0;
                &&& p.storage@.len() == final(self).tensor_map@.len()
                &&& (forall|i: int|
                    0 <= i < p.storage@.len() ==> {
                        &&& (#[trigger] p.storage@[i]).name@ == final(self).tensor_map@[i].0
                        &&& p.storage@[i].data@ == storage_bytes(final(self).tensor_map@[i].1)
                    })
                &&& views_of(p.outputs@) == views_of(
                    spec_terminal_outputs(final(self).op_map@),
                ) + views_of(final(self).optional_output_tensors@)
                &&& p.staging@.len() == p.outputs@.len()
                &&& (forall|i: int|
                    0 <= i < p.staging@.len() ==> {
                        &&& (#[trigger] p.staging@[i]).name@ == p.outputs@[i]@
                        &&& has_key(final(self).tensor_map@, p.outputs@[i]@)
                        &&& p.staging@[i].size == staging_size(
                            get_key(final(self).tensor_map@, p.outputs@[i]@)->Some_0,
                        )
                    })
                &&& ({
                    let schedule = Seq::new(
                        p.passes@.len(),
                        |i: int| p.passes@[i].op_name,
                    );
                    &&& topo_ordered(final(self).op_map@, schedule)
                    &&& no_dup_names(schedule)
                    &&& (forall|i: int|
                        0 <= i < schedule.len() ==> {
                            let op = get_key(final(self).op_map@, schedule[i]@)->Some_0;
                            &&& views_of((#[trigger] p.passes@[i]).buffers@) == views_of(
                                op.inputs@,
                            ) + views_of(op.outputs@)
                            &&& op.op_type.wg_ok(op, final(self).tensor_map@)
                            &&& p.passes@[i].workgroups@[0] == op.op_type.wg_spec(
                                op,
                                final(self).tensor_map@,
                            ).0
                            &&& p.passes@[i].workgroups@[1] == op.op_type.wg_spec(
                                op,
                                final(self).tensor_map@,
                            ).1
                            &&& p.passes@[i].workgroups@[2] == op.op_type.wg_spec(
                                op,
                                final(self).tensor_map@,
                            ).2
                        })
                })
            },
            r is Ok ==> {
                &&& (forall|i: int|
                    0 <= i < old(self).tensor_map@.len() ==> storage_encodable(
                        (#[trigger] old(self).tensor_map@[i]).1,
                    ))
                &&& has_key(shader_dir.files@, "_unary_elementwise.glsl"@)
                &&& has_key(shader_dir.files@, "_binary_elementwise.glsl"@)
            },
            (old(self).op_map@.len() == 0 && old(self).optional_output_tensors@.len() == 0
                && has_key(shader_dir.files@, "_unary_elementwise.glsl"@) && has_key(
                shader_dir.files@,
                "_binary_elementwise.glsl"@,
            ) && (forall|i: int|
                0 <= i < old(self).tensor_map@.len() ==> storage_encodable(
                    (#[trigger] old(self).tensor_map@[i]).1,
                ))) ==> r is Ok,
            final(self).tensor_map == old(self).tensor_map,
            final(self).output_tensor_map == old(self).output_tensor_map,
            final(self).optional_output_tensors == old(self).optional_output_tensors,
    {
        match self.compile() {
            Ok(()) => {}
            Err(e) => {
                return Err(e);
            }
        }
        let mut storage: Vec<BufferPlan> = Vec::new();
        let nt = self.tensor_map.len();
        for i in 0..nt
            invariant
                nt == self.tensor_map@.len(),
                storage@.len() == i,
                forall|j: int|
                    0 <= j < i ==> storage_encodable((#[trigger] self.tensor_map@[j]).1),
                forall|j: int|
                    0 <= j < i ==> {
                        &&& (#[trigger] storage@[j]).name@ == self.tensor_map@[j].0
                        &&& storage@[j].data@ == storage_bytes(self.tensor_map@[j].1)
                    },
        {
            let name = self.tensor_map.key_at(i).clone();
            let data = match storage_data(self.tensor_map.value_at(i)) {
                Ok(d) => d,
                Err(e) => {
                    return Err(e);
                }
            };
            storage.push(BufferPlan { name, data });
        }
        let mut outputs = self.terminal_outputs();
        let mut optional = copy_strings(&self.optional_output_tensors);
        outputs.append(&mut optional);
        proof {
            assert(views_of(outputs@) =~= views_of(spec_terminal_outputs(self.op_map@))
                + views_of(self.optional_output_tensors@));
        }
        let mut staging: Vec<StagingPlan> = Vec::new();
        let no = outputs.len();
        for i in 0..no
            invariant
                no == outputs@.len(),
                staging@.len() == i,
                forall|j: int|
                    0 <= j < i ==> {
                        &&& (#[trigger] staging@[j]).name@ == outputs@[j]@
                        &&& has_key(self.tensor_map@, outputs@[j]@)
                        &&& staging@[j].size == staging_size(
                            get_key(self.tensor_map@, outputs@[j]@)->Some_0,
                        )
                    },
        {
            let t = match self.tensor_map.get(outputs[i].as_str()) {
                Some(t) => t,
                None => {
                    return Err(crate::errors::GosonnxError::TensorNotFound(outputs[i].clone()));
                }
            };
            let count = match crate::utils::tensor_len(t) {
                Ok(n) => n,
                Err(m) => {
                    return Err(GosonnxError::Error(m));
                }
            };
            let size: usize = match t {
                Tensor::F32 { .. } => {
                    if count > usize::MAX / 4 {
                        return Err(
                            GosonnxError::Error("tensor bytes exceed the machine".to_owned()),
                        );
                    }
                    count * 4
                }
                Tensor::F64 { .. } => {
                    if count > usize::MAX / 8 {
                        return Err(
                            GosonnxError::Error("tensor bytes exceed the machine".to_owned()),
                        );
                    }
                    count * 8
                }
                Tensor::I64 { .. } => {
                    if count > usize::MAX / 8 {
                        return Err(
                            GosonnxError::Error("tensor bytes exceed the machine".to_owned()),
                        );
                    }
                    count * 8
                }
            };
            staging.push(StagingPlan { name: outputs[i].clone(), size });
        }
        let unary_source = match shader_dir.files.get("_unary_elementwise.glsl") {
            Some(s) => s.clone(),
            None => {
                return Err(GosonnxError::Error("a base shader template is missing".to_owned()));
            }
        };
        let binary_source = match shader_dir.files.get("_binary_elementwise.glsl") {
            Some(s) => s.clone(),
            None => {
                return Err(GosonnxError::Error("a base shader template is missing".to_owned()));
            }
        };
        let sorted = crate::gpu::topo(&self.op_map);
        let mut passes: Vec<PassPlan> = Vec::new();
        let ns = sorted.len();
        for i in 0..ns
            invariant
                ns == sorted@.len(),
                topo_ordered(self.op_map@, sorted@),
                no_dup_names(sorted@),
                passes@.len() == i,
                forall|j: int|
                    0 <= j < i ==> {
                        let op = get_key(self.op_map@, sorted@[j]@)->Some_0;
                        &&& (#[trigger] passes@[j]).op_name == sorted@[j]
                        &&& views_of(passes@[j].buffers@) == views_of(op.inputs@) + views_of(
                            op.outputs@,
                        )
                        &&& op.op_type.wg_ok(op, self.tensor_map@)
                        &&& passes@[j].workgroups@[0] == op.op_type.wg_spec(op, self.tensor_map@).0
                        &&& passes@[j].workgroups@[1] == op.op_type.wg_spec(op, self.tensor_map@).1
                        &&& passes@[j].workgroups@[2] == op.op_type.wg_spec(op, self.tensor_map@).2
                    },
        {
            proof {
                assert(topo_ordered_at(self.op_map@, sorted@, i as int));
                crate::store::lemma_find_key(self.op_map@, sorted@[i as int]@);
            }
            let op_idx = match self.op_map.index_of(sorted[i].as_str()) {
                Some(ix) => ix,
                None => {
                    return Err(GosonnxError::Error("Failed to optimize".to_owned()));
                }
            };
            let op = self.op_map.value_at(op_idx);
            proof {
                assert(get_key(self.op_map@, sorted@[i as int]@) == Some(*op));
            }
            let mut file_name = op.op_type.to_string();
            file_name.append(".glsl");
            let shader_source = match shader_dir.files.get(file_name.as_str()) {
                Some(s) => s.clone(),
                None => {
                    return Err(
                        GosonnxError::Error(
                            "no shader template exists for the operator kind".to_owned(),
                        ),
                    );
                }
            };
            let cw = match op.op_type.compile(
                shader_source.as_str(),
                unary_source.as_str(),
                binary_source.as_str(),
                op,
                self,
            ) {
                Ok(cw) => cw,
                Err(e) => {
                    return Err(e);
                }
            };
            let compiled = cw.0;
            let wg = cw.1;
            let mut buffers = copy_strings(&op.inputs);
            let mut outs = copy_strings(&op.outputs);
            buffers.append(&mut outs);
            proof {
                assert(views_of(buffers@) =~= views_of(op.inputs@) + views_of(op.outputs@));
            }
            let ghost gbuffers = buffers@;
            passes.push(
                PassPlan {
                    op_name: sorted[i].clone(),
                    shader_source: compiled,
                    buffers,
                    workgroups: wg,
                },
            );
            proof {
                let j = i as int;
                assert(passes@[j].op_name == sorted@[j]);
                assert(passes@[j].buffers@ == gbuffers);
                assert(passes@[j].workgroups == wg);
                assert(op.op_type.wg_ok(*op, self.tensor_map@));
                assert(forall|q: int|
                    0 <= q < j ==> (#[trigger] passes@[q]) == passes@.drop_last()[q]);
            }
        }
        proof {
            assert(Seq::new(passes@.len(), |i: int| passes@[i].op_name) =~= sorted@);
        }
        Ok(ExecutionPlan { storage, staging, passes, outputs })
    }
}

/// The signed reading of a 64-bit word: two's complement.
pub open spec fn signed_of_u64(w: int) -> int {
    if w <= i64::MAX {
        w
    } else {
        w - 0x10000000000000000
    }
}

/// The 64-bit word read little-endian at element position `i`.
pub open spec fn le_u64_at(b: Seq<u8>, i: int) -> int {
    b[8 * i] + 0x100 * b[8 * i + 1] + 0x10000 * b[8 * i + 2] + 0x1000000 * b[8 * i + 3] + 0x100000000
        * b[8 * i + 4] + 0x10000000000 * b[8 * i + 5] + 0x1000000000000 * b[8 * i + 6]
        + 0x100000000000000 * b[8 * i + 7]
}

/// Reads the first `count` little-endian 32-bit words of a buffer.
fn decode_u32_prefix(b: &Vec<u8>, count: usize) -> (r: Vec<u32>)
    requires
        count * 4 <= b@.len(),
    ensures
        r@.len() == count,
        forall|i: int| 0 <= i < count ==> #[trigger] r@[i] as int == crate::utils::le_u32_at(b@, i),
{
    let blen = b.len();
    let mut r: Vec<u32> = Vec::new();
    for i in 0..count
        invariant
            count * 4 <= b@.len(),
            blen == b@.len(),
            r@.len() == i,
            forall|j: int|
                0 <= j < i ==> #[trigger] r@[j] as int == crate::utils::le_u32_at(b@, j),
    {
        let w: u32 = (b[4 * i] as u32) + 256 * (b[4 * i + 1] as u32) + 65536 * (b[4 * i + 2] as u32)
            + 16777216 * (b[4 * i + 3] as u32);
        r.push(w);
    }
    r
}

/// Reads the first `count` little-endian 64-bit words of a buffer.
fn decode_u64_prefix(b: &Vec<u8>, count: usize) -> (r: Vec<u64>)
    requires
        count * 8 <= b@.len(),
    ensures
        r@.len() == count,
        forall|i: int| 0 <= i < count ==> #[trigger] r@[i] as int == le_u64_at(b@, i),
{
    let blen = b.len();
    let mut r: Vec<u64> = Vec::new();
    for i in 0..count
        invariant
            count * 8 <= b@.len(),
            blen == b@.len(),
            r@.len() == i,
            forall|j: int| 0 <= j < i ==> #[trigger] r@[j] as int == le_u64_at(b@, j),
    {
        let w: u64 = (b[8 * i] as u64) + 0x100 * (b[8 * i + 1] as u64) + 0x10000 * (b[8 * i + 2]
            as u64) + 0x1000000 * (b[8 * i + 3] as u64) + 0x100000000 * (b[8 * i + 4] as u64)
            + 0x10000000000 * (b[8 * i + 5] as u64) + 0x1000000000000 * (b[8 * i + 6] as u64)
            + 0x100000000000000 * (b[8 * i + 7] as u64);
        r.push(w);
    }
    r
}

impl Graph {
    /// Decodes one read-back staging buffer into the output map: the
    /// bytes are read little-endian as the named tensor's element type,
    /// truncated to the tensor's element count — dropping placeholder
    /// padding — and stored under the name with the tensor's shape.
    #[verifier::loop_isolation(false)]
    pub fn store_output(&mut self, name: &str, bytes: &Vec<u8>) -> (r: Result<(), GosonnxError>)
        ensures
            r is Err ==> *final(self) == *old(self),
            (r is Ok) <==> (has_key(old(self).tensor_map@, name@) && {
                let src = get_key(old(self).tensor_map@, name@)->Some_0;
                let s = src.spec_shape();
                &&& (forall|j: int| 0 <= j < s.len() ==> s[j] >= 0)
                &&& shape_product(s) <= (usize::MAX as int) / elem_size(src)
                &&& shape_product(s) * elem_size(src) <= bytes@.len()
            }),
            r is Ok ==> has_key(old(self).tensor_map@, name@) && {
                let src = get_key(old(self).tensor_map@, name@)->Some_0;
                let count = shape_product(src.spec_shape());
                &&& final(self).output_tensor_map@ == crate::store::upserted(
                    old(self).output_tensor_map@,
                    name@,
                    get_key(final(self).output_tensor_map@, name@)->Some_0,
                )
                &&& {
                    let out = get_key(final(self).output_tensor_map@, name@)->Some_0;
                    &&& out.spec_type() == src.spec_type()
                    &&& out.spec_shape() == src.spec_shape()
                    &&& out.spec_has_values()
                    &&& out.spec_values_len() == count
                    &&& (out is F32 ==> (forall|i: int|
                        0 <= i < count ==> (#[trigger] out->F32_values->Some_0@[i]) as int
                            == crate::utils::le_u32_at(bytes@, i)))
                    &&& (out is I64 ==> (forall|i: int|
                        0 <= i < count ==> (#[trigger] out->I64_values->Some_0@[i]) as int
                            == signed_of_u64(le_u64_at(bytes@, i))))
                    &&& (out is F64 ==> (forall|i: int|
                        0 <= i < count ==> (#[trigger] out->F64_values->Some_0@[i]) as int
                            == le_u64_at(bytes@, i)))
                }
            },
            final(self).tensor_map == old(self).tensor_map,
            final(self).op_map == old(self).op_map,
            final(self).optional_output_tensors == old(self).optional_output_tensors,
    {
        let src = match self.tensor_map.get(name) {
            Some(t) => t,
            None => {
                return Err(GosonnxError::TensorNotFound(name.to_owned()));
            }
        };
        let count = match crate::utils::tensor_len(src) {
            Ok(n) => n,
            Err(m) => {
                return Err(GosonnxError::Error(m));
            }
        };
        let shape = src.shape();
        let out: Tensor = match src {
            Tensor::F32 { .. } => {
                if count > usize::MAX / 4 || count * 4 > bytes.len() {
                    return Err(
                        GosonnxError::Error("the read-back buffer is too short".to_owned()),
                    );
                }
                Tensor::F32 { values: Some(decode_u32_prefix(bytes, count)), shape }
            }
            Tensor::F64 { .. } => {
                if count > usize::MAX / 8 || count * 8 > bytes.len() {
                    return Err(
                        GosonnxError::Error("the read-back buffer is too short".to_owned()),
                    );
                }
                Tensor::F64 { values: Some(decode_u64_prefix(bytes, count)), shape }
            }
            Tensor::I64 { .. } => {
                if count > usize::MAX / 8 || count * 8 > bytes.len() {
                    return Err(
                        GosonnxError::Error("the read-back buffer is too short".to_owned()),
                    );
                }
                let words = decode_u64_prefix(bytes, count);
                let mut vals: Vec<i64> = Vec::new();
                let n = words.len();
                for i in 0..n
                    invariant
                        n == words@.len(),
                        vals@.len() == i,
                        forall|j: int|
                            0 <= j < i ==> (#[trigger] vals@[j]) as int == signed_of_u64(
                                words@[j] as int,
                            ),
                {
                    let w = words[i];
                    let x: i64 = if w <= 0x7fffffffffffffffu64 {
                        w as i64
                    } else {
                        -((u64::MAX - w) as i64) - 1
                    };
                    vals.push(x);
                }
                Tensor::I64 { values: Some(vals), shape }
            }
        };
        let ghost gout = out;
        proof {
            crate::store::lemma_upserted(self.output_tensor_map@, name@, gout);
        }
        self.output_tensor_map.insert(name, out);
        Ok(())
    }
}

} // verus!
