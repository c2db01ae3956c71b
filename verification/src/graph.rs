use vstd::prelude::*;

use crate::errors::GosonnxError;
use crate::ops::OpType;
use crate::store::{get_key, has_key, upserted, Store};
use crate::utils::{
    contains_string, contains_view, copy_vec, lemma_contains_concat, lemma_views_of_push,
    owned_strings, shape_element_count, shape_product, strings_subset, views_of,
};

verus! {

/// The element types a tensor can carry.
#[derive(Debug, Clone, Copy, PartialEq, Eq, Structural)]
pub enum TensorType {
    F32,
    F64,
    I64,
}

/// A typed n-dimensional array with an optional host-resident value buffer.
///
/// The value buffers of the two floating-point variants hold IEEE 754 bit
/// patterns (one `u32` or `u64` per element, little-endian on the wire).
/// The library moves and sizes these values; only the device interprets
/// them as numbers.
#[derive(Debug)]
pub enum Tensor {
    F32 { values: Option<Vec<u32>>, shape: Vec<i64> },
    F64 { values: Option<Vec<u64>>, shape: Vec<i64> },
    I64 { values: Option<Vec<i64>>, shape: Vec<i64> },
}

impl Tensor {
    /// The shape, as a sequence of dimension sizes.
    pub open spec fn spec_shape(&self) -> Seq<i64> {
        match self {
            Tensor::F32 { shape, .. } => shape@,
            Tensor::F64 { shape, .. } => shape@,
            Tensor::I64 { shape, .. } => shape@,
        }
    }

    /// The element type.
    pub open spec fn spec_type(&self) -> TensorType {
        match self {
            Tensor::F32 { .. } => TensorType::F32,
            Tensor::F64 { .. } => TensorType::F64,
            Tensor::I64 { .. } => TensorType::I64,
        }
    }

    /// The GLSL scalar type name the shaders use for this element type.
    pub open spec fn spec_type_glsl(&self) -> Seq<char> {
        match self {
            Tensor::F32 { .. } => "float"@,
            Tensor::F64 { .. } => "double"@,
            Tensor::I64 { .. } => "int"@,
        }
    }

    /// Whether the tensor carries host-resident values.
    pub open spec fn spec_has_values(&self) -> bool {
        match self {
            Tensor::F32 { values, .. } => values is Some,
            Tensor::F64 { values, .. } => values is Some,
            Tensor::I64 { values, .. } => values is Some,
        }
    }

    /// The number of host-resident values, when present.
    pub open spec fn spec_values_len(&self) -> int {
        match self {
            Tensor::F32 { values: Some(v), .. } => v@.len() as int,
            Tensor::F64 { values: Some(v), .. } => v@.len() as int,
            Tensor::I64 { values: Some(v), .. } => v@.len() as int,
            _ => 0,
        }
    }

    pub fn shape(&self) -> (r: Vec<i64>)
        ensures
            r@ == self.spec_shape(),
    {
        match self {
            Tensor::F32 { values: _, shape } => copy_vec(shape),
            Tensor::F64 { values: _, shape } => copy_vec(shape),
            Tensor::I64 { values: _, shape } => copy_vec(shape),
        }
    }

    pub fn tensor_type(&self) -> (r: TensorType)
        ensures
            r == self.spec_type(),
    {
        match self {
            Tensor::F32 { .. } => TensorType::F32,
            Tensor::F64 { .. } => TensorType::F64,
            Tensor::I64 { .. } => TensorType::I64,
        }
    }

    pub fn type_glsl(&self) -> (r: String)
        ensures
            r@ == self.spec_type_glsl(),
    {
        match self {
            Tensor::F32 { .. } => "float".to_owned(),
            Tensor::F64 { .. } => "double".to_owned(),
            Tensor::I64 { .. } => "int".to_owned(),
        }
    }
}

/// One node of the dataflow graph: a kind with its attributes, the ordered
/// tensor names it reads and writes, and — once edges are inferred — the
/// ordered names of its neighbouring operators. `extra_attr` carries the
/// out-of-band key/value pairs that activation fusion injects.
#[derive(Debug)]
pub struct Op {
    pub op_type: OpType,
    pub op_name: String,
    pub prevs: Vec<String>,
    pub nexts: Vec<String>,
    pub inputs: Vec<String>,
    pub outputs: Vec<String>,
    pub extra_attr: Option<Vec<(String, String)>>,
}

impl Op {
    pub fn new() -> (r: Self)
        ensures
            r.op_type is Unknown,
            r.op_name@ == Seq::<char>::empty(),
            r.prevs@.len() == 0,
            r.nexts@.len() == 0,
            r.inputs@.len() == 0,
            r.outputs@.len() == 0,
            r.extra_attr is None,
    {
        Op {
            op_type: OpType::Unknown,
            op_name: String::new(),
            prevs: Vec::new(),
            nexts: Vec::new(),
            inputs: Vec::new(),
            outputs: Vec::new(),
            extra_attr: None,
        }
    }
}

/// The dataflow graph: the tensor store, the operator store, decoded
/// outputs keyed by tensor name, and the tensor names whose storage is
/// copied out at readback in addition to the terminal outputs.
pub struct Graph {
    pub tensor_map: Store<Tensor>,
    pub op_map: Store<Op>,
    pub output_tensor_map: Store<Tensor>,
    pub optional_output_tensors: Vec<String>,
}

impl Graph {
    pub fn new() -> (r: Self)
        ensures
            r.tensor_map@.len() == 0,
            r.op_map@.len() == 0,
            r.output_tensor_map@.len() == 0,
            r.optional_output_tensors@.len() == 0,
    {
        Graph {
            tensor_map: Store::new(),
            op_map: Store::new(),
            output_tensor_map: Store::new(),
            optional_output_tensors: Vec::new(),
        }
    }

    /// Registers an operator under `op_name`, with no neighbours yet:
    /// edge inference fills those in later.
    pub fn new_op(
        &mut self,
        input_names: Vec<&str>,
        output_names: Vec<&str>,
        op_name: &str,
        op_type: OpType,
    ) -> (r: Result<(), GosonnxError>)
        ensures
            r is Ok,
            exists|op: Op|
                {
                    &&& #[trigger] final(self).op_map@ == upserted(old(self).op_map@, op_name@, op)
                    &&& op.op_type == op_type
                    &&& op.op_name@ == op_name@
                    &&& op.prevs@.len() == 0
                    &&& op.nexts@.len() == 0
                    &&& op.inputs@.len() == input_names@.len()
                    &&& (forall|j: int|
                        0 <= j < input_names@.len() ==> op.inputs@[j]@ == input_names@[j]@)
                    &&& op.outputs@.len() == output_names@.len()
                    &&& (forall|j: int|
                        0 <= j < output_names@.len() ==> op.outputs@[j]@ == output_names@[j]@)
                    &&& op.extra_attr is None
                },
            final(self).tensor_map@ == old(self).tensor_map@,
            final(self).output_tensor_map@ == old(self).output_tensor_map@,
            final(self).optional_output_tensors == old(self).optional_output_tensors,
    {
        let op = Op {
            op_type,
            op_name: op_name.to_owned(),
            prevs: Vec::new(),
            nexts: Vec::new(),
            inputs: owned_strings(&input_names),
            outputs: owned_strings(&output_names),
            extra_attr: None,
        };
        let ghost gop = op;
        self.op_map.insert(op_name, op);
        assert(self.op_map@ == upserted(old(self).op_map@, op_name@, gop));
        Ok(())
    }

    /// Validates a value buffer against a shape: the buffer length must
    /// equal the shape's element count.
    fn len_and_shape_valid(&self, len: usize, shape: &Vec<i64>) -> (r: bool)
        ensures
            r == values_fit(len as int, shape@),
    {
        match shape_element_count(shape) {
            Ok(n) => n == len,
            Err(_) => false,
        }
    }

    /// Creates or replaces a 32-bit float tensor. `values`, when present,
    /// holds one IEEE 754 bit pattern per element and must match the
    /// shape's element count.
    pub fn new_tensor_f32(
        &mut self,
        tensor_name: &str,
        values: Option<Vec<u32>>,
        shape: Vec<i64>,
    ) -> (r: Result<(), GosonnxError>)
        ensures
            (r is Ok) <==> (match values {
                Some(v) => values_fit(v@.len() as int, shape@),
                None => true,
            }),
            r is Ok ==> final(self).tensor_map@ == upserted(
                old(self).tensor_map@,
                tensor_name@,
                Tensor::F32 { values, shape },
            ),
            r is Err ==> *final(self) == *old(self) && r->Err_0 is TensorCreateError,
            final(self).op_map@ == old(self).op_map@,
            final(self).output_tensor_map@ == old(self).output_tensor_map@,
            final(self).optional_output_tensors == old(self).optional_output_tensors,
    {
        if let Some(vals) = &values {
            if !self.len_and_shape_valid(vals.len(), &shape) {
                return Err(GosonnxError::TensorCreateError(
                    "cannot create tensor: values do not fill the shape".to_owned(),
                ));
            }
        }
        self.tensor_map.insert(tensor_name, Tensor::F32 { values, shape });
        Ok(())
    }

    /// Creates or replaces a 64-bit integer tensor; values, when present,
    /// must match the shape's element count.
    pub fn new_tensor_i64(
        &mut self,
        tensor_name: &str,
        values: Option<Vec<i64>>,
        shape: Vec<i64>,
    ) -> (r: Result<(), GosonnxError>)
        ensures
            (r is Ok) <==> (match values {
                Some(v) => values_fit(v@.len() as int, shape@),
                None => true,
            }),
            r is Ok ==> final(self).tensor_map@ == upserted(
                old(self).tensor_map@,
                tensor_name@,
                Tensor::I64 { values, shape },
            ),
            r is Err ==> *final(self) == *old(self) && r->Err_0 is TensorCreateError,
            final(self).op_map@ == old(self).op_map@,
            final(self).output_tensor_map@ == old(self).output_tensor_map@,
            final(self).optional_output_tensors == old(self).optional_output_tensors,
    {
        if let Some(vals) = &values {
            if !self.len_and_shape_valid(vals.len(), &shape) {
                return Err(GosonnxError::TensorCreateError(
                    "cannot create tensor: values do not fill the shape".to_owned(),
                ));
            }
        }
        self.tensor_map.insert(tensor_name, Tensor::I64 { values, shape });
        Ok(())
    }

    /// The decoded output tensor under `arg`, when a run has produced one.
    pub fn get_output(&self, arg: &str) -> (r: Option<&Tensor>)
        ensures
            match r {
                Some(t) => get_key(self.output_tensor_map@, arg@) == Some(*t),
                None => get_key(self.output_tensor_map@, arg@) is None,
            },
    {
        self.output_tensor_map.get(arg)
    }

    /// Replaces an existing tensor; the new shape must equal the prior
    /// shape, so replacement never changes a tensor's shape.
    pub fn set_tensor(&mut self, name: &str, tensor: Tensor)
        requires
            has_key(old(self).tensor_map@, name@),
            get_key(old(self).tensor_map@, name@)->Some_0.spec_shape() == tensor.spec_shape(),
        ensures
            final(self).tensor_map@ == upserted(old(self).tensor_map@, name@, tensor),
            get_key(final(self).tensor_map@, name@)->Some_0.spec_shape()
                == get_key(old(self).tensor_map@, name@)->Some_0.spec_shape(),
            final(self).op_map@ == old(self).op_map@,
            final(self).output_tensor_map@ == old(self).output_tensor_map@,
            final(self).optional_output_tensors == old(self).optional_output_tensors,
    {
        self.tensor_map.insert(name, tensor);
        proof {
            crate::store::lemma_upserted(old(self).tensor_map@, name@, tensor);
        }
    }

    /// Marks an existing tensor so readback also copies its storage out.
    pub fn add_optional_output(&mut self, name: &str) -> (r: Result<(), GosonnxError>)
        ensures
            (r is Ok) <==> has_key(old(self).tensor_map@, name@),
            r is Ok ==> final(self).optional_output_tensors@.len()
                == old(self).optional_output_tensors@.len() + 1
                && final(self).optional_output_tensors@.last()@ == name@
                && final(self).optional_output_tensors@.take(
                old(self).optional_output_tensors@.len() as int,
            ) == old(self).optional_output_tensors@,
            r is Err ==> *final(self) == *old(self) && r->Err_0 is TensorNotFound,
            final(self).tensor_map@ == old(self).tensor_map@,
            final(self).op_map@ == old(self).op_map@,
            final(self).output_tensor_map@ == old(self).output_tensor_map@,
    {
        if self.tensor_map.contains_key(name) {
            self.optional_output_tensors.push(name.to_owned());
            assert(self.optional_output_tensors@.take(
                old(self).optional_output_tensors@.len() as int,
            ) =~= old(self).optional_output_tensors@);
            Ok(())
        } else {
            Err(GosonnxError::TensorNotFound(name.to_owned()))
        }
    }

    /// The tensor names written by operators with no successor, in store
    /// order: the outputs that readback returns to the host.
    pub fn terminal_outputs(&self) -> (r: Vec<String>)
        ensures
            r@ == spec_terminal_outputs(self.op_map@),
    {
        let mut outputs: Vec<String> = Vec::new();
        let n = self.op_map.len();
        assert(self.op_map@.take(0) =~= Seq::<(Seq<char>, Op)>::empty());
        for i in 0..n
            invariant
                n == self.op_map@.len(),
                outputs@ == spec_terminal_outputs(self.op_map@.take(i as int)),
        {
            proof {
                assert(self.op_map@.take(i + 1).drop_last() =~= self.op_map@.take(i as int));
                assert(self.op_map@.take(i + 1).last() == self.op_map@[i as int]);
            }
            let op = self.op_map.value_at(i);
            if op.nexts.len() == 0 {
                let m = op.outputs.len();
                let ghost prefix = outputs@;
                for j in 0..m
                    invariant
                        m == op.outputs@.len(),
                        *op == self.op_map@[i as int].1,
                        outputs@ == prefix + op.outputs@.take(j as int),
                {
                    outputs.push(op.outputs[j].clone());
                    assert(outputs@ =~= prefix + op.outputs@.take(j + 1));
                }
                assert(op.outputs@.take(m as int) =~= op.outputs@);
            }
            assert(outputs@ =~= spec_terminal_outputs(self.op_map@.take(i + 1)));
        }
        assert(self.op_map@.take(n as int) =~= self.op_map@);
        outputs
    }
}

/// Whether a value buffer of length `len` fills `shape` exactly.
pub open spec fn values_fit(len: int, shape: Seq<i64>) -> bool {
    &&& len == shape_product(shape)
    &&& forall|j: int| 0 <= j < shape.len() ==> shape[j] >= 0
}

/// The outputs of the operators with no successors, in store order.
pub open spec fn spec_terminal_outputs(ops: Seq<(Seq<char>, Op)>) -> Seq<String>
    decreases ops.len(),
{
    if ops.len() == 0 {
        Seq::empty()
    } else {
        spec_terminal_outputs(ops.drop_last()) + (if ops.last().1.nexts@.len() == 0 {
            ops.last().1.outputs@
        } else {
            Seq::empty()
        })
    }
}

/// Everything of an operator but its neighbour lists.
pub open spec fn op_statics_eq(a: Op, b: Op) -> bool {
    &&& a.op_type == b.op_type
    &&& a.op_name == b.op_name
    &&& a.inputs == b.inputs
    &&& a.outputs == b.outputs
    &&& a.extra_attr == b.extra_attr
}

/// The static test for an edge from operator `i` to operator `j`: distinct
/// names, every output of `i` among the inputs of `j`, and `i`'s own name
/// not among those inputs.
pub open spec fn edge_cond(ops: Seq<(Seq<char>, Op)>, i: int, j: int) -> bool {
    &&& 0 <= i < ops.len()
    &&& 0 <= j < ops.len()
    &&& ops[i].0 != ops[j].0
    &&& (forall|x: int|
        0 <= x < ops[i].1.outputs@.len() ==> contains_view(
            ops[j].1.inputs@,
            ops[i].1.outputs@[x]@,
        ))
    &&& !contains_view(ops[j].1.inputs@, ops[i].0)
}

/// The successor names edge inference appends to operator `i`, considering
/// candidate successors with index below `hi`, in index order.
pub open spec fn added_nexts(ops: Seq<(Seq<char>, Op)>, i: int, hi: int) -> Seq<Seq<char>>
    decreases hi, 0int,
{
    if hi <= 0 {
        Seq::empty()
    } else {
        added_nexts(ops, i, hi - 1) + (if pair_connects(ops, i, hi - 1) {
            seq![ops[hi - 1].0]
        } else {
            Seq::empty()
        })
    }
}

/// Whether edge inference joins `i` to `j` when it considers that pair:
/// the static edge test holds and the edge is not already present — not in
/// `i`'s prior successor list and not added for an earlier candidate.
pub open spec fn pair_connects(ops: Seq<(Seq<char>, Op)>, i: int, j: int) -> bool
    decreases j, 1int,
{
    &&& edge_cond(ops, i, j)
    &&& !contains_view(ops[i].1.nexts@, ops[j].0)
    &&& !added_nexts(ops, i, j).contains(ops[j].0)
}

/// The predecessor names edge inference appends to operator `j`,
/// considering sources with index below `hi`, in index order.
pub open spec fn added_prevs(ops: Seq<(Seq<char>, Op)>, j: int, hi: int) -> Seq<Seq<char>>
    decreases hi,
{
    if hi <= 0 {
        Seq::empty()
    } else {
        added_prevs(ops, j, hi - 1) + (if pair_connects(ops, hi - 1, j) {
            seq![ops[hi - 1].0]
        } else {
            Seq::empty()
        })
    }
}

impl Graph {
    /// Infers the edges of the dataflow graph from tensor names: for every
    /// ordered operator pair (a, b), if every output of a is among b's
    /// inputs and a is not named as an input of b, then b is appended to
    /// a's successors and a to b's predecessors — unless that edge already
    /// exists, so inference never duplicates an edge.
    #[verifier::rlimit(100)]
    pub fn compile(&mut self) -> (r: Result<(), GosonnxError>)
        ensures
            r is Ok,
            final(self).op_map@.len() == old(self).op_map@.len(),
            forall|t: int|
                0 <= t < old(self).op_map@.len() ==> {
                    let ops0 = old(self).op_map@;
                    &&& (#[trigger] final(self).op_map@[t]).0 == ops0[t].0
                    &&& op_statics_eq(final(self).op_map@[t].1, ops0[t].1)
                    &&& views_of(final(self).op_map@[t].1.nexts@) == views_of(ops0[t].1.nexts@)
                        + added_nexts(ops0, t, ops0.len() as int)
                    &&& views_of(final(self).op_map@[t].1.prevs@) == views_of(ops0[t].1.prevs@)
                        + added_prevs(ops0, t, ops0.len() as int)
                },
            final(self).tensor_map == old(self).tensor_map,
            final(self).output_tensor_map == old(self).output_tensor_map,
            final(self).optional_output_tensors == old(self).optional_output_tensors,
    {
        let n = self.op_map.len();
        let ghost ops0 = self.op_map@;
        for i in 0..n
            invariant
                n == ops0.len(),
                self.op_map@.len() == n,
                forall|t: int|
                    0 <= t < n ==> (#[trigger] self.op_map@[t]).0 == ops0[t].0 && op_statics_eq(
                        self.op_map@[t].1,
                        ops0[t].1,
                    ),
                forall|t: int|
                    0 <= t < i ==> views_of(#[trigger] self.op_map@[t].1.nexts@) == views_of(
                        ops0[t].1.nexts@,
                    ) + added_nexts(ops0, t, n as int),
                forall|t: int| i <= t < n ==> (#[trigger] self.op_map@[t]).1.nexts == ops0[t].1.nexts,
                forall|t: int|
                    0 <= t < n ==> views_of(#[trigger] self.op_map@[t].1.prevs@) == views_of(
                        ops0[t].1.prevs@,
                    ) + added_prevs(ops0, t, i as int),
                self.tensor_map == old(self).tensor_map,
                self.output_tensor_map == old(self).output_tensor_map,
                self.optional_output_tensors == old(self).optional_output_tensors,
        {
            for j in 0..n
                invariant
                    n == ops0.len(),
                    0 <= i < n,
                    self.op_map@.len() == n,
                    forall|t: int|
                        0 <= t < n ==> (#[trigger] self.op_map@[t]).0 == ops0[t].0
                            && op_statics_eq(self.op_map@[t].1, ops0[t].1),
                    forall|t: int|
                        0 <= t < i ==> views_of(#[trigger] self.op_map@[t].1.nexts@) == views_of(
                            ops0[t].1.nexts@,
                        ) + added_nexts(ops0, t, n as int),
                    views_of(self.op_map@[i as int].1.nexts@) == views_of(ops0[i as int].1.nexts@)
                        + added_nexts(ops0, i as int, j as int),
                    forall|t: int|
                        i < t < n ==> (#[trigger] self.op_map@[t]).1.nexts == ops0[t].1.nexts,
                    forall|t: int|
                        0 <= t < n ==> views_of(#[trigger] self.op_map@[t].1.prevs@) == views_of(
                            ops0[t].1.prevs@,
                        ) + added_prevs(ops0, t, i as int) + (if t < j && pair_connects(
                            ops0,
                            i as int,
                            t,
                        ) {
                            seq![ops0[i as int].0]
                        } else {
                            Seq::empty()
                        }),
                    self.tensor_map == old(self).tensor_map,
                    self.output_tensor_map == old(self).output_tensor_map,
                    self.optional_output_tensors == old(self).optional_output_tensors,
            {
                let cond: bool;
                {
                    let key_i = self.op_map.key_at(i);
                    let key_j = self.op_map.key_at(j);
                    if crate::store::str_eq(key_i.as_str(), key_j.as_str()) {
                        cond = false;
                    } else {
                        let from = self.op_map.value_at(i);
                        let to = self.op_map.value_at(j);
                        cond = strings_subset(&from.outputs, &to.inputs) && !contains_string(
                            &to.inputs,
                            key_i.as_str(),
                        ) && !contains_string(&from.nexts, key_j.as_str());
                    }
                }
                proof {
                    lemma_contains_concat(
                        views_of(ops0[i as int].1.nexts@),
                        added_nexts(ops0, i as int, j as int),
                        ops0[j as int].0,
                    );
                    assert(cond == pair_connects(ops0, i as int, j as int));
                }
                if cond {
                    let name_i = self.op_map.key_at(i).clone();
                    let name_j = self.op_map.key_at(j).clone();
                    let ghost gni = name_i;
                    let ghost gnj = name_j;
                    let ghost pre = self.op_map@;
                    let (ki, mut opi) = self.op_map.take_at(i);
                    let ghost opi0 = opi;
                    opi.nexts.push(name_j);
                    let ghost opi1 = opi;
                    self.op_map.put_at(i, ki, opi);
                    proof {
                        assert(opi0 == pre[i as int].1);
                        assert(opi1.nexts@ == pre[i as int].1.nexts@.push(gnj));
                        assert(self.op_map@ =~= pre.update(i as int, (pre[i as int].0, opi1)));
                        lemma_views_of_push(pre[i as int].1.nexts@, gnj);
                        assert(views_of(self.op_map@[i as int].1.nexts@) =~= views_of(
                            ops0[i as int].1.nexts@,
                        ) + added_nexts(ops0, i as int, j + 1));
                    }
                    let ghost pre2 = self.op_map@;
                    let (kj, mut opj) = self.op_map.take_at(j);
                    let ghost opj0 = opj;
                    opj.prevs.push(name_i);
                    let ghost opj1 = opj;
                    self.op_map.put_at(j, kj, opj);
                    proof {
                        assert(ops0[i as int].0 != ops0[j as int].0);
                        assert(i != j);
                        assert(pre2[j as int] == pre[j as int]);
                        assert(views_of(pre[j as int].1.prevs@) == views_of(
                            ops0[j as int].1.prevs@,
                        ) + added_prevs(ops0, j as int, i as int) + (if j < j && pair_connects(
                            ops0,
                            i as int,
                            j as int,
                        ) {
                            seq![ops0[i as int].0]
                        } else {
                            Seq::<Seq<char>>::empty()
                        }));
                        assert(opj0 == pre2[j as int].1);
                        assert(opj1.prevs@ == pre2[j as int].1.prevs@.push(gni));
                        assert(self.op_map@ =~= pre2.update(j as int, (pre2[j as int].0, opj1)));
                        lemma_views_of_push(pre2[j as int].1.prevs@, gni);
                        assert(gni@ == ops0[i as int].0);
                        assert(views_of(pre2[j as int].1.prevs@) == views_of(
                            ops0[j as int].1.prevs@,
                        ) + added_prevs(ops0, j as int, i as int) + Seq::<Seq<char>>::empty());
                        assert(views_of(self.op_map@[j as int].1.prevs@) =~= views_of(
                            ops0[j as int].1.prevs@,
                        ) + added_prevs(ops0, j as int, i as int) + seq![ops0[i as int].0]);
                        assert forall|t: int| 0 <= t < n implies views_of(
                            #[trigger] self.op_map@[t].1.prevs@,
                        ) == views_of(ops0[t].1.prevs@) + added_prevs(ops0, t, i as int) + (if t < j
                            + 1 && pair_connects(ops0, i as int, t) {
                            seq![ops0[i as int].0]
                        } else {
                            Seq::<Seq<char>>::empty()
                        }) by {
                            if t == j as int {
                            } else {
                                assert(pre2[t] == pre[t]
                                    || (t == i as int && pre2[t].1.prevs == pre[t].1.prevs));
                                assert(self.op_map@[t].1.prevs == pre[t].1.prevs);
                            }
                        }
                    }
                } else {
                    proof {
                        assert(added_nexts(ops0, i as int, j + 1) =~= added_nexts(
                            ops0,
                            i as int,
                            j as int,
                        ));
                    }
                }
            }
        }
        Ok(())
    }
}

proof fn lemma_added_nexts_sound(ops: Seq<(Seq<char>, Op)>, i: int, hi: int)
    requires
        0 <= hi <= ops.len(),
    ensures
        forall|e: Seq<char>|
            #[trigger] added_nexts(ops, i, hi).contains(e) ==> exists|j: int|
                0 <= j < hi && ops[j].0 == e && edge_cond(ops, i, j),
    decreases hi,
{
    if hi > 0 {
        lemma_added_nexts_sound(ops, i, hi - 1);
        assert forall|e: Seq<char>| #[trigger] added_nexts(ops, i, hi).contains(e) implies exists|
            j: int,
        |
            0 <= j < hi && ops[j].0 == e && edge_cond(ops, i, j) by {
            lemma_contains_concat(
                added_nexts(ops, i, hi - 1),
                if pair_connects(ops, i, hi - 1) {
                    seq![ops[hi - 1].0]
                } else {
                    Seq::empty()
                },
                e,
            );
            if !added_nexts(ops, i, hi - 1).contains(e) {
                assert(pair_connects(ops, i, hi - 1));
                assert(ops[hi - 1].0 == e);
            }
        }
    }
}

/// After edge inference, every edge is sound: an inferred successor of
/// operator `i` names a differently named operator `j` that meets the edge
/// condition, so — whenever `i` has at least one output — the outputs of
/// `i` and the inputs of `j` share a name, and no operator becomes its own
/// successor.
pub proof fn lemma_inferred_edges_sound(ops: Seq<(Seq<char>, Op)>, i: int, e: Seq<char>)
    requires
        0 <= i < ops.len(),
        added_nexts(ops, i, ops.len() as int).contains(e),
    ensures
        e != ops[i].0,
        exists|j: int| 0 <= j < ops.len() && ops[j].0 == e && edge_cond(ops, i, j),
        ops[i].1.outputs@.len() > 0 ==> exists|j: int, y: int|
            {
                &&& 0 <= j < ops.len()
                &&& ops[j].0 == e
                &&& 0 <= y < ops[j].1.inputs@.len()
                &&& ops[j].1.inputs@[y]@ == ops[i].1.outputs@[0]@
            },
{
    lemma_added_nexts_sound(ops, i, ops.len() as int);
    let j = choose|j: int| 0 <= j < ops.len() && ops[j].0 == e && edge_cond(ops, i, j);
    assert(ops[i].0 != ops[j].0);
    if ops[i].1.outputs@.len() > 0 {
        assert(contains_view(ops[j].1.inputs@, ops[i].1.outputs@[0]@));
        let y = choose|y: int|
            0 <= y < views_of(ops[j].1.inputs@).len() && views_of(ops[j].1.inputs@)[y]
                == ops[i].1.outputs@[0]@;
        assert(ops[j].1.inputs@[y]@ == ops[i].1.outputs@[0]@);
    }
}

proof fn lemma_added_prevs_sound(ops: Seq<(Seq<char>, Op)>, j: int, hi: int)
    requires
        0 <= hi <= ops.len(),
    ensures
        forall|e: Seq<char>|
            #[trigger] added_prevs(ops, j, hi).contains(e) ==> exists|i: int|
                0 <= i < hi && ops[i].0 == e && edge_cond(ops, i, j),
    decreases hi,
{
    if hi > 0 {
        lemma_added_prevs_sound(ops, j, hi - 1);
        assert forall|e: Seq<char>| #[trigger] added_prevs(ops, j, hi).contains(e) implies exists|
            i: int,
        |
            0 <= i < hi && ops[i].0 == e && edge_cond(ops, i, j) by {
            lemma_contains_concat(
                added_prevs(ops, j, hi - 1),
                if pair_connects(ops, hi - 1, j) {
                    seq![ops[hi - 1].0]
                } else {
                    Seq::empty()
                },
                e,
            );
            if !added_prevs(ops, j, hi - 1).contains(e) {
                assert(pair_connects(ops, hi - 1, j));
                assert(ops[hi - 1].0 == e);
            }
        }
    }
}

/// After edge inference, no operator lists itself as a predecessor: an
/// inferred predecessor of operator `j` names a differently named
/// operator that meets the edge condition towards `j`.
pub proof fn lemma_inferred_prevs_sound(ops: Seq<(Seq<char>, Op)>, j: int, e: Seq<char>)
    requires
        0 <= j < ops.len(),
        added_prevs(ops, j, ops.len() as int).contains(e),
    ensures
        e != ops[j].0,
        exists|i: int| 0 <= i < ops.len() && ops[i].0 == e && edge_cond(ops, i, j),
{
    lemma_added_prevs_sound(ops, j, ops.len() as int);
    let i = choose|i: int| 0 <= i < ops.len() && ops[i].0 == e && edge_cond(ops, i, j);
    assert(ops[i].0 != ops[j].0);
}

proof fn lemma_added_nexts_prefix(ops: Seq<(Seq<char>, Op)>, i: int, h1: int, h2: int)
    requires
        0 <= h1 <= h2,
    ensures
        forall|e: Seq<char>|
            #[trigger] added_nexts(ops, i, h1).contains(e) ==> added_nexts(ops, i, h2).contains(e),
    decreases h2 - h1,
{
    if h1 < h2 {
        lemma_added_nexts_prefix(ops, i, h1, h2 - 1);
        assert forall|e: Seq<char>|
            #[trigger] added_nexts(ops, i, h1).contains(e) implies added_nexts(
            ops,
            i,
            h2,
        ).contains(e) by {
            lemma_contains_concat(
                added_nexts(ops, i, h2 - 1),
                if pair_connects(ops, i, h2 - 1) {
                    seq![ops[h2 - 1].0]
                } else {
                    Seq::empty()
                },
                e,
            );
        }
    }
}

/// One pass of edge inference leaves the graph connected: every operator
/// pair that meets the edge condition is joined afterwards.
pub proof fn lemma_inference_connects(ops0: Seq<(Seq<char>, Op)>, ops1: Seq<(Seq<char>, Op)>)
    requires
        ops0.len() == ops1.len(),
        forall|t: int|
            0 <= t < ops0.len() ==> (#[trigger] ops1[t]).0 == ops0[t].0 && op_statics_eq(
                ops1[t].1,
                ops0[t].1,
            ),
        forall|t: int|
            0 <= t < ops0.len() ==> views_of(#[trigger] ops1[t].1.nexts@) == views_of(
                ops0[t].1.nexts@,
            ) + added_nexts(ops0, t, ops0.len() as int),
    ensures
        forall|i: int, j: int|
            #[trigger] edge_cond(ops1, i, j) ==> contains_view(ops1[i].1.nexts@, ops1[j].0),
{
    assert forall|i: int, j: int| #[trigger] edge_cond(ops1, i, j) implies contains_view(
        ops1[i].1.nexts@,
        ops1[j].0,
    ) by {
        assert(edge_cond(ops0, i, j));
        lemma_contains_concat(
            views_of(ops0[i].1.nexts@),
            added_nexts(ops0, i, ops0.len() as int),
            ops0[j].0,
        );
        if pair_connects(ops0, i, j) {
            assert(added_nexts(ops0, i, j + 1).contains(ops0[j].0)) by {
                lemma_contains_concat(added_nexts(ops0, i, j), seq![ops0[j].0], ops0[j].0);
                assert(seq![ops0[j].0][0] == ops0[j].0);
                assert(seq![ops0[j].0].contains(ops0[j].0));
            }
            lemma_added_nexts_prefix(ops0, i, j + 1, ops0.len() as int);
        } else {
            if !contains_view(ops0[i].1.nexts@, ops0[j].0) {
                assert(added_nexts(ops0, i, j).contains(ops0[j].0));
                lemma_added_nexts_prefix(ops0, i, j, ops0.len() as int);
            }
        }
    }
}

/// Edge inference is idempotent: on a graph whose operators are already
/// joined wherever the edge condition holds, it emits no edge — no
/// duplicate successors and no duplicate predecessors.
pub proof fn lemma_inference_idempotent(ops: Seq<(Seq<char>, Op)>, t: int, hi: int)
    requires
        forall|i: int, j: int|
            #[trigger] edge_cond(ops, i, j) ==> contains_view(ops[i].1.nexts@, ops[j].0),
        0 <= hi <= ops.len(),
    ensures
        added_nexts(ops, t, hi) == Seq::<Seq<char>>::empty(),
        added_prevs(ops, t, hi) == Seq::<Seq<char>>::empty(),
    decreases hi,
{
    if hi > 0 {
        lemma_inference_idempotent(ops, t, hi - 1);
        assert(!pair_connects(ops, t, hi - 1));
        assert(!pair_connects(ops, hi - 1, t));
        assert(added_nexts(ops, t, hi) =~= Seq::<Seq<char>>::empty());
        assert(added_prevs(ops, t, hi) =~= Seq::<Seq<char>>::empty());
    }
}

pub fn run() {
}

} // verus!
