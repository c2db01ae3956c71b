use vstd::prelude::*;

use crate::errors::GosonnxError;
use crate::graph::{Graph, Op, Tensor};
use crate::ops::{elementwise_workgroup, ew_wg, ew_wg_ok, lookup_tensor, ShaderTemplate, TValue, TemplateValue};
use crate::store::get_key;

verus! {

/// Clamp between a minimum and a maximum, both supplied as extra scalar
/// input tensors that the shader reads from storage.
#[derive(Debug)]
pub struct ClipOp;

impl ClipOp {
    pub fn new() -> (r: Self) {
        ClipOp
    }

    /// What the clamp compile needs: exactly three inputs — the data and
    /// the two bounds — and an output, all registered.
    pub open spec fn compile_ok(&self, op: Op, tensors: Seq<(Seq<char>, Tensor)>) -> bool {
        &&& op.inputs@.len() == 3
        &&& op.outputs@.len() >= 1
        &&& get_key(tensors, op.inputs@[0]@) is Some
        &&& get_key(tensors, op.inputs@[1]@) is Some
        &&& get_key(tensors, op.inputs@[2]@) is Some
        &&& get_key(tensors, op.outputs@[0]@) is Some
    }

    /// The bindings the clamp compile pushes.
    pub open spec fn spec_bindings(
        &self,
        m0: Map<Seq<char>, TValue>,
        op: Op,
        tensors: Seq<(Seq<char>, Tensor)>,
    ) -> Map<Seq<char>, TValue> {
        m0.insert(
            "input_type"@,
            TValue::Text(get_key(tensors, op.inputs@[0]@)->Some_0.spec_type_glsl()),
        ).insert(
            "min_val_type"@,
            TValue::Text(get_key(tensors, op.inputs@[1]@)->Some_0.spec_type_glsl()),
        ).insert(
            "max_val_type"@,
            TValue::Text(get_key(tensors, op.inputs@[2]@)->Some_0.spec_type_glsl()),
        ).insert(
            "output_type"@,
            TValue::Text(get_key(tensors, op.outputs@[0]@)->Some_0.spec_type_glsl()),
        )
    }

    /// Binds a clamp: the element types of the data, the two bound
    /// tensors and the output. Any input count other than three is
    /// rejected; the context is only written on success.
    pub fn compile(&self, op: &Op, shader_templ: &mut ShaderTemplate, graph: &Graph) -> (r: Result<
        (),
        GosonnxError,
    >)
        ensures
            (r is Ok) <==> self.compile_ok(*op, graph.tensor_map@),
            r is Err ==> *final(shader_templ) == *old(shader_templ),
            r is Ok ==> final(shader_templ).bindings() == self.spec_bindings(
                old(shader_templ).bindings(),
                *op,
                graph.tensor_map@,
            ),
            op.inputs@.len() != 3 ==> r is Err && r->Err_0 is InvalidInputNo
                && r->Err_0->InvalidInputNo_expected == 3 && r->Err_0->InvalidInputNo_found
                == op.inputs@.len(),
            final(shader_templ).templates() == old(shader_templ).templates(),
            final(shader_templ).name() == old(shader_templ).name(),
    {
        if op.inputs.len() != 3 {
            return Err(GosonnxError::InvalidInputNo { expected: 3, found: op.inputs.len() });
        }
        if op.outputs.len() < 1 {
            return Err(GosonnxError::Error("a clamp needs an output".to_owned()));
        }
        let input = match lookup_tensor(graph, &op.inputs[0]) {
            Ok(t) => t,
            Err(e) => {
                return Err(e);
            }
        };
        let min_val = match lookup_tensor(graph, &op.inputs[1]) {
            Ok(t) => t,
            Err(e) => {
                return Err(e);
            }
        };
        let max_val = match lookup_tensor(graph, &op.inputs[2]) {
            Ok(t) => t,
            Err(e) => {
                return Err(e);
            }
        };
        let output = match lookup_tensor(graph, &op.outputs[0]) {
            Ok(t) => t,
            Err(e) => {
                return Err(e);
            }
        };
        shader_templ.push_attr("input_type", TemplateValue::Text(input.type_glsl()));
        shader_templ.push_attr("min_val_type", TemplateValue::Text(min_val.type_glsl()));
        shader_templ.push_attr("max_val_type", TemplateValue::Text(max_val.type_glsl()));
        shader_templ.push_attr("output_type", TemplateValue::Text(output.type_glsl()));
        Ok(())
    }

    /// One workgroup of 256 threads per 256 elements of the data input.
    pub fn compute_workgroup_size(&self, op: &Op, graph: &Graph) -> (r: [u32; 3])
        requires
            ew_wg_ok(*op, graph.tensor_map@),
        ensures
            r@[0] == ew_wg(*op, graph.tensor_map@),
            r@[1] == 1u32,
            r@[2] == 1u32,
    {
        elementwise_workgroup(op, graph)
    }
}

} // verus!
