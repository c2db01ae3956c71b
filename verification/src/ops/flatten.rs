use vstd::prelude::*;

use crate::errors::GosonnxError;
use crate::graph::{Graph, Op, Tensor};
use crate::ops::{
    lookup_tensor, out_shape, pair_geometry, pair_wg_ok, to_csv_str, ShaderTemplate, TValue,
    TemplateValue,
};
use crate::store::get_key;
use crate::utils::csv_ints;

verus! {

/// Flattens the input into a matrix around `axis`; negative axes are
/// rejected at compile time.
#[derive(Debug)]
pub struct FlattenOp {
    pub axis: i64,
}

impl FlattenOp {
    pub fn new(axis: i64) -> (r: Self)
        ensures
            r.axis == axis,
    {
        FlattenOp { axis }
    }

    /// What the flatten compile needs: a non-negative axis and an input
    /// and output tensor registered under the operator's first names.
    pub open spec fn compile_ok(&self, op: Op, tensors: Seq<(Seq<char>, Tensor)>) -> bool {
        &&& self.axis >= 0
        &&& op.inputs@.len() >= 1
        &&& op.outputs@.len() >= 1
        &&& get_key(tensors, op.inputs@[0]@) is Some
        &&& get_key(tensors, op.outputs@[0]@) is Some
    }

    /// The bindings the flatten compile pushes.
    pub open spec fn spec_bindings(
        &self,
        m0: Map<Seq<char>, TValue>,
        op: Op,
        tensors: Seq<(Seq<char>, Tensor)>,
    ) -> Map<Seq<char>, TValue> {
        let x = get_key(tensors, op.inputs@[0]@)->Some_0;
        let y = get_key(tensors, op.outputs@[0]@)->Some_0;
        m0.insert("X_type"@, TValue::Text(x.spec_type_glsl())).insert(
            "Y_type"@,
            TValue::Text(y.spec_type_glsl()),
        ).insert("in_dim"@, TValue::Text(csv_ints(x.spec_shape()))).insert(
            "out_dim"@,
            TValue::Text(csv_ints(y.spec_shape())),
        ).insert("in_ndim"@, TValue::Int(x.spec_shape().len() as int)).insert(
            "out_ndim"@,
            TValue::Int(y.spec_shape().len() as int),
        ).insert("axis"@, TValue::Int(self.axis as int))
    }

    /// Binds a flatten: the element types, the input and output shapes
    /// and ranks, and the axis. A negative axis is rejected; the context
    /// is only written on success.
    pub fn compile(&self, op: &Op, shader_templ: &mut ShaderTemplate, graph: &Graph) -> (r: Result<
        (),
        GosonnxError,
    >)
        ensures
            (r is Ok) <==> self.compile_ok(*op, graph.tensor_map@),
            r is Err ==> *final(shader_templ) == *old(shader_templ),
            r is Ok ==> final(shader_templ).bindings() == self.spec_bindings(
                old(shader_templ).bindings(),
                *op,
                graph.tensor_map@,
            ),
            self.axis < 0 ==> r is Err && r->Err_0 is Error,
            final(shader_templ).templates() == old(shader_templ).templates(),
            final(shader_templ).name() == old(shader_templ).name(),
    {
        if self.axis < 0 {
            return Err(GosonnxError::Error("Cannot handle negative axis yet".to_owned()));
        }
        if op.inputs.len() < 1 {
            return Err(GosonnxError::InvalidInputNo { expected: 1, found: op.inputs.len() });
        }
        if op.outputs.len() < 1 {
            return Err(GosonnxError::Error("a flatten needs an output".to_owned()));
        }
        let x = match lookup_tensor(graph, &op.inputs[0]) {
            Ok(t) => t,
            Err(e) => {
                return Err(e);
            }
        };
        let y = match lookup_tensor(graph, &op.outputs[0]) {
            Ok(t) => t,
            Err(e) => {
                return Err(e);
            }
        };
        shader_templ.push_attr("X_type", TemplateValue::Text(x.type_glsl()));
        shader_templ.push_attr("Y_type", TemplateValue::Text(y.type_glsl()));
        shader_templ.push_attr("in_dim", TemplateValue::Text(to_csv_str(&x.shape())));
        shader_templ.push_attr("out_dim", TemplateValue::Text(to_csv_str(&y.shape())));
        shader_templ.push_attr("in_ndim", TemplateValue::Uint(x.shape().len()));
        shader_templ.push_attr("out_ndim", TemplateValue::Uint(y.shape().len()));
        shader_templ.push_attr("axis", TemplateValue::Int(self.axis));
        Ok(())
    }

    /// One workgroup per 32 columns and 8 rows of the flattened output.
    pub fn compute_workgroup_size(&self, op: &Op, graph: &Graph) -> (r: [u32; 3])
        requires
            pair_wg_ok(*op, graph.tensor_map@, 1, 32, 0, 8),
        ensures
            r@[0] == (out_shape(*op, graph.tensor_map@)[1] + 31) / 32,
            r@[1] == (out_shape(*op, graph.tensor_map@)[0] + 7) / 8,
            r@[2] == 1u32,
    {
        match pair_geometry(op, graph, 1, 32, 0, 8) {
            Ok(r) => r,
            Err(_) => {
                proof {
                    assert(false);
                }
                [0, 0, 1]
            }
        }
    }
}

} // verus!
