use vstd::prelude::*;

use crate::errors::GosonnxError;
use crate::graph::{Graph, Op, Tensor};
use crate::ops::{
    lookup_tensor, out_shape, pool_geometry, pool_wg_ok, to_csv_str, ShaderTemplate, TValue,
    TemplateValue,
};
use crate::store::get_key;
use crate::utils::{csv_ints, dec_int, i64_to_string};

verus! {

/// Windowed maximum pooling over rank-4 inputs.
#[derive(Debug)]
pub struct MaxPoolOp {
    pub ceil_mode: i64,
    pub kernel_shape: Vec<i64>,
    pub pads: Vec<i64>,
    pub strides: Vec<i64>,
}

impl MaxPoolOp {
    pub fn new(ceil_mode: i64, kernel_shape: Vec<i64>, pads: Vec<i64>, strides: Vec<i64>) -> (r:
        Self)
        ensures
            r.ceil_mode == ceil_mode,
            r.kernel_shape == kernel_shape,
            r.pads == pads,
            r.strides == strides,
    {
        MaxPoolOp { ceil_mode, kernel_shape, pads, strides }
    }

    /// What the pooling compile needs: a rank-4 input and an output
    /// tensor registered under the operator's first names.
    pub open spec fn compile_ok(&self, op: Op, tensors: Seq<(Seq<char>, Tensor)>) -> bool {
        &&& op.inputs@.len() >= 1
        &&& op.outputs@.len() >= 1
        &&& get_key(tensors, op.inputs@[0]@) is Some
        &&& get_key(tensors, op.outputs@[0]@) is Some
        &&& get_key(tensors, op.inputs@[0]@)->Some_0.spec_shape().len() == 4
    }

    /// The bindings the pooling compile pushes; the ceil-mode flag rides
    /// along in decimal text form.
    pub open spec fn spec_bindings(
        &self,
        m0: Map<Seq<char>, TValue>,
        op: Op,
        tensors: Seq<(Seq<char>, Tensor)>,
    ) -> Map<Seq<char>, TValue> {
        let x = get_key(tensors, op.inputs@[0]@)->Some_0;
        let y = get_key(tensors, op.outputs@[0]@)->Some_0;
        m0.insert("X_type"@, TValue::Text(x.spec_type_glsl())).insert(
            "Y_type"@,
            TValue::Text(y.spec_type_glsl()),
        ).insert("in_dim"@, TValue::Text(csv_ints(x.spec_shape()))).insert(
            "out_dim"@,
            TValue::Text(csv_ints(y.spec_shape())),
        ).insert("ceil_mode"@, TValue::Text(dec_int(self.ceil_mode as int))).insert(
            "kernel_shape"@,
            TValue::Text(csv_ints(self.kernel_shape@)),
        ).insert("pads"@, TValue::Text(csv_ints(self.pads@))).insert(
            "strides"@,
            TValue::Text(csv_ints(self.strides@)),
        )
    }

    /// Binds a maximum pool: the element types, the input and output
    /// shapes, and the pool attribute set. An input that is not rank 4
    /// is rejected; the context is only written on success.
    pub fn compile(&self, op: &Op, shader_templ: &mut ShaderTemplate, graph: &Graph) -> (r: Result<
        (),
        GosonnxError,
    >)
        ensures
            (r is Ok) <==> self.compile_ok(*op, graph.tensor_map@),
            r is Err ==> *final(shader_templ) == *old(shader_templ),
            r is Ok ==> final(shader_templ).bindings() == self.spec_bindings(
                old(shader_templ).bindings(),
                *op,
                graph.tensor_map@,
            ),
            ({
                let tensors = graph.tensor_map@;
                (op.inputs@.len() >= 1 && op.outputs@.len() >= 1 && get_key(
                    tensors,
                    op.inputs@[0]@,
                ) is Some && get_key(tensors, op.outputs@[0]@) is Some && get_key(
                    tensors,
                    op.inputs@[0]@,
                )->Some_0.spec_shape().len() != 4) ==> r is Err && r->Err_0
                    is InvalidInputDimension && r->Err_0->InvalidInputDimension_expected == 4
                    && r->Err_0->InvalidInputDimension_found == get_key(
                    tensors,
                    op.inputs@[0]@,
                )->Some_0.spec_shape().len() as usize
            }),
            final(shader_templ).templates() == old(shader_templ).templates(),
            final(shader_templ).name() == old(shader_templ).name(),
    {
        if op.inputs.len() < 1 {
            return Err(GosonnxError::InvalidInputNo { expected: 1, found: op.inputs.len() });
        }
        if op.outputs.len() < 1 {
            return Err(GosonnxError::Error("a pool needs an output".to_owned()));
        }
        let x = match lookup_tensor(graph, &op.inputs[0]) {
            Ok(t) => t,
            Err(e) => {
                return Err(e);
            }
        };
        let y = match lookup_tensor(graph, &op.outputs[0]) {
            Ok(t) => t,
            Err(e) => {
                return Err(e);
            }
        };
        let xs = x.shape();
        if xs.len() != 4 {
            return Err(GosonnxError::InvalidInputDimension { expected: 4, found: xs.len() });
        }
        shader_templ.push_attr("X_type", TemplateValue::Text(x.type_glsl()));
        shader_templ.push_attr("Y_type", TemplateValue::Text(y.type_glsl()));
        shader_templ.push_attr("in_dim", TemplateValue::Text(to_csv_str(&xs)));
        shader_templ.push_attr("out_dim", TemplateValue::Text(to_csv_str(&y.shape())));
        shader_templ.push_attr("ceil_mode", TemplateValue::Text(i64_to_string(self.ceil_mode)));
        shader_templ.push_attr(
            "kernel_shape",
            TemplateValue::Text(to_csv_str(&self.kernel_shape)),
        );
        shader_templ.push_attr("pads", TemplateValue::Text(to_csv_str(&self.pads)));
        shader_templ.push_attr("strides", TemplateValue::Text(to_csv_str(&self.strides)));
        Ok(())
    }

    /// One workgroup per 16×4 spatial block and 4 batch-channel layers
    /// of the output.
    pub fn compute_workgroup_size(&self, op: &Op, graph: &Graph) -> (r: [u32; 3])
        requires
            pool_wg_ok(*op, graph.tensor_map@),
        ensures
            r@[0] == (out_shape(*op, graph.tensor_map@)[3] + 15) / 16,
            r@[1] == (out_shape(*op, graph.tensor_map@)[2] + 3) / 4,
            r@[2] == (out_shape(*op, graph.tensor_map@)[0] * out_shape(*op, graph.tensor_map@)[1]
                + 3) / 4,
    {
        match pool_geometry(op, graph) {
            Ok(r) => r,
            Err(_) => {
                proof {
                    assert(false);
                }
                [0, 0, 1]
            }
        }
    }
}

} // verus!
