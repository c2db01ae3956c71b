use vstd::prelude::*;

use crate::errors::GosonnxError;
use crate::graph::{Graph, Op, Tensor};
use crate::ops::{
    lookup_tensor, out_shape, pair_geometry, pair_wg_ok, to_csv_str, ShaderTemplate, TValue,
    TemplateValue,
};
use crate::store::get_key;
use crate::utils::csv_ints;

verus! {

/// Batch normalization over rank-4 inputs; `epsilon` and `momentum` are
/// scalars held in the textual form the shader template interpolates.
#[derive(Debug)]
pub struct BatchNormalizationOp {
    pub epsilon: Option<String>,
    pub momentum: Option<String>,
}

impl BatchNormalizationOp {
    pub fn new(epsilon: Option<String>, momentum: Option<String>) -> (r: Self)
        ensures
            r.epsilon == epsilon,
            r.momentum == momentum,
    {
        BatchNormalizationOp { epsilon, momentum }
    }

    /// What the normalization compile needs: exactly the five documented
    /// inputs — data, scale, bias, mean and variance — all registered, a
    /// rank-4 data input, and a registered output.
    pub open spec fn compile_ok(&self, op: Op, tensors: Seq<(Seq<char>, Tensor)>) -> bool {
        &&& op.inputs@.len() == 5
        &&& op.outputs@.len() >= 1
        &&& get_key(tensors, op.inputs@[0]@) is Some
        &&& get_key(tensors, op.inputs@[1]@) is Some
        &&& get_key(tensors, op.inputs@[2]@) is Some
        &&& get_key(tensors, op.inputs@[3]@) is Some
        &&& get_key(tensors, op.inputs@[4]@) is Some
        &&& get_key(tensors, op.outputs@[0]@) is Some
        &&& get_key(tensors, op.inputs@[0]@)->Some_0.spec_shape().len() == 4
    }

    /// The bindings the normalization compile pushes.
    pub open spec fn spec_bindings(
        &self,
        m0: Map<Seq<char>, TValue>,
        op: Op,
        tensors: Seq<(Seq<char>, Tensor)>,
    ) -> Map<Seq<char>, TValue> {
        let x = get_key(tensors, op.inputs@[0]@)->Some_0;
        let y = get_key(tensors, op.outputs@[0]@)->Some_0;
        m0.insert("input_type"@, TValue::Text(x.spec_type_glsl())).insert(
            "scale_type"@,
            TValue::Text(get_key(tensors, op.inputs@[1]@)->Some_0.spec_type_glsl()),
        ).insert(
            "b_type"@,
            TValue::Text(get_key(tensors, op.inputs@[2]@)->Some_0.spec_type_glsl()),
        ).insert(
            "mean_type"@,
            TValue::Text(get_key(tensors, op.inputs@[3]@)->Some_0.spec_type_glsl()),
        ).insert(
            "var_type"@,
            TValue::Text(get_key(tensors, op.inputs@[4]@)->Some_0.spec_type_glsl()),
        ).insert(
            "epsilon"@,
            TValue::Text(match self.epsilon {
                Some(v) => v@,
                None => "0.00001"@,
            }),
        ).insert("output_type"@, TValue::Text(y.spec_type_glsl())).insert(
            "in_dim"@,
            TValue::Text(csv_ints(x.spec_shape())),
        ).insert("out_dim"@, TValue::Text(csv_ints(y.spec_shape())))
    }

    /// Binds a batch normalization: the element types of the five inputs
    /// and the output, the epsilon in textual form (defaulting to the
    /// documented 0.00001), and the data and output shapes. A wrong input
    /// count or a non-rank-4 data input is rejected; the context is only
    /// written on success.
    pub fn compile(&self, op: &Op, shader_templ: &mut ShaderTemplate, graph: &Graph) -> (r: Result<
        (),
        GosonnxError,
    >)
        ensures
            (r is Ok) <==> self.compile_ok(*op, graph.tensor_map@),
            r is Err ==> *final(shader_templ) == *old(shader_templ),
            r is Ok ==> final(shader_templ).bindings() == self.spec_bindings(
                old(shader_templ).bindings(),
                *op,
                graph.tensor_map@,
            ),
            op.inputs@.len() != 5 ==> r is Err && r->Err_0 is InvalidInputNo
                && r->Err_0->InvalidInputNo_expected == 5 && r->Err_0->InvalidInputNo_found
                == op.inputs@.len(),
            ({
                let tensors = graph.tensor_map@;
                (op.inputs@.len() == 5 && op.outputs@.len() >= 1 && (forall|j: int|
                    0 <= j < 5 ==> get_key(tensors, (#[trigger] op.inputs@[j])@) is Some)
                    && get_key(tensors, op.outputs@[0]@) is Some && get_key(
                    tensors,
                    op.inputs@[0]@,
                )->Some_0.spec_shape().len() != 4) ==> r is Err && r->Err_0
                    is InvalidInputDimension && r->Err_0->InvalidInputDimension_expected == 4
                    && r->Err_0->InvalidInputDimension_found == get_key(
                    tensors,
                    op.inputs@[0]@,
                )->Some_0.spec_shape().len() as usize
            }),
            final(shader_templ).templates() == old(shader_templ).templates(),
            final(shader_templ).name() == old(shader_templ).name(),
    {
        if op.inputs.len() != 5 {
            return Err(GosonnxError::InvalidInputNo { expected: 5, found: op.inputs.len() });
        }
        if op.outputs.len() < 1 {
            return Err(GosonnxError::Error("a normalization needs an output".to_owned()));
        }
        let input = match lookup_tensor(graph, &op.inputs[0]) {
            Ok(t) => t,
            Err(e) => {
                return Err(e);
            }
        };
        let scale = match lookup_tensor(graph, &op.inputs[1]) {
            Ok(t) => t,
            Err(e) => {
                return Err(e);
            }
        };
        let b = match lookup_tensor(graph, &op.inputs[2]) {
            Ok(t) => t,
            Err(e) => {
                return Err(e);
            }
        };
        let mean = match lookup_tensor(graph, &op.inputs[3]) {
            Ok(t) => t,
            Err(e) => {
                return Err(e);
            }
        };
        let var = match lookup_tensor(graph, &op.inputs[4]) {
            Ok(t) => t,
            Err(e) => {
                return Err(e);
            }
        };
        let output = match lookup_tensor(graph, &op.outputs[0]) {
            Ok(t) => t,
            Err(e) => {
                return Err(e);
            }
        };
        let xs = input.shape();
        if xs.len() != 4 {
            return Err(GosonnxError::InvalidInputDimension { expected: 4, found: xs.len() });
        }
        let epsilon = match &self.epsilon {
            Some(v) => v.clone(),
            None => "0.00001".to_owned(),
        };
        shader_templ.push_attr("input_type", TemplateValue::Text(input.type_glsl()));
        shader_templ.push_attr("scale_type", TemplateValue::Text(scale.type_glsl()));
        shader_templ.push_attr("b_type", TemplateValue::Text(b.type_glsl()));
        shader_templ.push_attr("mean_type", TemplateValue::Text(mean.type_glsl()));
        shader_templ.push_attr("var_type", TemplateValue::Text(var.type_glsl()));
        shader_templ.push_attr("epsilon", TemplateValue::Text(epsilon));
        shader_templ.push_attr("output_type", TemplateValue::Text(output.type_glsl()));
        shader_templ.push_attr("in_dim", TemplateValue::Text(to_csv_str(&xs)));
        shader_templ.push_attr("out_dim", TemplateValue::Text(to_csv_str(&output.shape())));
        Ok(())
    }

    /// One workgroup per 16 output rows and 16 output columns.
    pub fn compute_workgroup_size(&self, op: &Op, graph: &Graph) -> (r: [u32; 3])
        requires
            pair_wg_ok(*op, graph.tensor_map@, 2, 16, 3, 16),
        ensures
            r@[0] == (out_shape(*op, graph.tensor_map@)[2] + 15) / 16,
            r@[1] == (out_shape(*op, graph.tensor_map@)[3] + 15) / 16,
            r@[2] == 1u32,
    {
        match pair_geometry(op, graph, 2, 16, 3, 16) {
            Ok(r) => r,
            Err(_) => {
                proof {
                    assert(false);
                }
                [0, 0, 1]
            }
        }
    }
}

} // verus!
