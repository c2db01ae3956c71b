use vstd::prelude::*;

use crate::errors::GosonnxError;
use crate::graph::{Graph, Op, Tensor};
use crate::ops::{
    lookup_tensor, out_shape, pair_geometry, pair_wg_ok, to_csv_str, ShaderTemplate, TValue,
    TemplateValue,
};
use crate::store::get_key;
use crate::utils::csv_ints;

verus! {

/// Average pooling over the whole spatial extent; no attributes.
#[derive(Debug)]
pub struct GlobalAveragePoolOp;

impl GlobalAveragePoolOp {
    pub fn new() -> (r: Self) {
        GlobalAveragePoolOp
    }

    /// What the global pooling compile needs: a rank-4 input and an
    /// output tensor registered under the operator's first names.
    pub open spec fn compile_ok(&self, op: Op, tensors: Seq<(Seq<char>, Tensor)>) -> bool {
        &&& op.inputs@.len() >= 1
        &&& op.outputs@.len() >= 1
        &&& get_key(tensors, op.inputs@[0]@) is Some
        &&& get_key(tensors, op.outputs@[0]@) is Some
        &&& get_key(tensors, op.inputs@[0]@)->Some_0.spec_shape().len() == 4
    }

    /// The bindings the global pooling compile pushes.
    pub open spec fn spec_bindings(
        &self,
        m0: Map<Seq<char>, TValue>,
        op: Op,
        tensors: Seq<(Seq<char>, Tensor)>,
    ) -> Map<Seq<char>, TValue> {
        let x = get_key(tensors, op.inputs@[0]@)->Some_0;
        let y = get_key(tensors, op.outputs@[0]@)->Some_0;
        m0.insert("X_type"@, TValue::Text(x.spec_type_glsl())).insert(
            "Y_type"@,
            TValue::Text(y.spec_type_glsl()),
        ).insert("in_dim"@, TValue::Text(csv_ints(x.spec_shape()))).insert(
            "out_dim"@,
            TValue::Text(csv_ints(y.spec_shape())),
        )
    }

    /// Binds a global average pool: the element types and the input and
    /// output shapes. An input that is not rank 4 is rejected; the
    /// context is only written on success.
    pub fn compile(&self, op: &Op, shader_templ: &mut ShaderTemplate, graph: &Graph) -> (r: Result<
        (),
        GosonnxError,
    >)
        ensures
            (r is Ok) <==> self.compile_ok(*op, graph.tensor_map@),
            r is Err ==> *final(shader_templ) == *old(shader_templ),
            r is Ok ==> final(shader_templ).bindings() == self.spec_bindings(
                old(shader_templ).bindings(),
                *op,
                graph.tensor_map@,
            ),
            ({
                let tensors = graph.tensor_map@;
                (op.inputs@.len() >= 1 && op.outputs@.len() >= 1 && get_key(
                    tensors,
                    op.inputs@[0]@,
                ) is Some && get_key(tensors, op.outputs@[0]@) is Some && get_key(
                    tensors,
                    op.inputs@[0]@,
                )->Some_0.spec_shape().len() != 4) ==> r is Err && r->Err_0
                    is InvalidInputDimension && r->Err_0->InvalidInputDimension_expected == 4
                    && r->Err_0->InvalidInputDimension_found == get_key(
                    tensors,
                    op.inputs@[0]@,
                )->Some_0.spec_shape().len() as usize
            }),
            final(shader_templ).templates() == old(shader_templ).templates(),
            final(shader_templ).name() == old(shader_templ).name(),
    {
        if op.inputs.len() < 1 {
            return Err(GosonnxError::InvalidInputNo { expected: 1, found: op.inputs.len() });
        }
        if op.outputs.len() < 1 {
            return Err(GosonnxError::Error("a pool needs an output".to_owned()));
        }
        let x = match lookup_tensor(graph, &op.inputs[0]) {
            Ok(t) => t,
            Err(e) => {
                return Err(e);
            }
        };
        let y = match lookup_tensor(graph, &op.outputs[0]) {
            Ok(t) => t,
            Err(e) => {
                return Err(e);
            }
        };
        let xs = x.shape();
        if xs.len() != 4 {
            return Err(GosonnxError::InvalidInputDimension { expected: 4, found: xs.len() });
        }
        shader_templ.push_attr("X_type", TemplateValue::Text(x.type_glsl()));
        shader_templ.push_attr("Y_type", TemplateValue::Text(y.type_glsl()));
        shader_templ.push_attr("in_dim", TemplateValue::Text(to_csv_str(&xs)));
        shader_templ.push_attr("out_dim", TemplateValue::Text(to_csv_str(&y.shape())));
        Ok(())
    }

    /// One workgroup per 16 batches and 16 channels of the output.
    pub fn compute_workgroup_size(&self, op: &Op, graph: &Graph) -> (r: [u32; 3])
        requires
            pair_wg_ok(*op, graph.tensor_map@, 0, 16, 1, 16),
        ensures
            r@[0] == (out_shape(*op, graph.tensor_map@)[0] + 15) / 16,
            r@[1] == (out_shape(*op, graph.tensor_map@)[1] + 15) / 16,
            r@[2] == 1u32,
    {
        match pair_geometry(op, graph, 0, 16, 1, 16) {
            Ok(r) => r,
            Err(_) => {
                proof {
                    assert(false);
                }
                [0, 0, 1]
            }
        }
    }
}

} // verus!
