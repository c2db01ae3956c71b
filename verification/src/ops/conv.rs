use vstd::prelude::*;

use crate::errors::GosonnxError;
use crate::graph::{Graph, Op, Tensor};
use crate::ops::{
    conv_geometry, conv_wg_ok, lookup_tensor, out_shape, to_csv_str, ShaderTemplate, TValue,
    TemplateValue,
};
use crate::store::get_key;
use crate::utils::csv_ints;

verus! {

/// Convolution over rank-4 inputs.
#[derive(Debug)]
pub struct ConvOp {
    pub dilations: Vec<i64>,
    pub group: i64,
    pub kernel_shape: Vec<i64>,
    pub pads: Vec<i64>,
    pub strides: Vec<i64>,
}

impl ConvOp {
    pub fn new(
        dilations: Vec<i64>,
        group: i64,
        kernel_shape: Vec<i64>,
        pads: Vec<i64>,
        strides: Vec<i64>,
    ) -> (r: Self)
        ensures
            r.dilations == dilations,
            r.group == group,
            r.kernel_shape == kernel_shape,
            r.pads == pads,
            r.strides == strides,
    {
        ConvOp { dilations, group, kernel_shape, pads, strides }
    }

    /// What the convolution compile needs: input, weight and output
    /// tensors registered under the operator's first names, a weight of
    /// rank at least 1, and — when a bias name is given — a registered
    /// bias.
    pub open spec fn compile_ok(&self, op: Op, tensors: Seq<(Seq<char>, Tensor)>) -> bool {
        &&& op.inputs@.len() >= 2
        &&& op.outputs@.len() >= 1
        &&& get_key(tensors, op.inputs@[0]@) is Some
        &&& get_key(tensors, op.inputs@[1]@) is Some
        &&& get_key(tensors, op.outputs@[0]@) is Some
        &&& get_key(tensors, op.inputs@[1]@)->Some_0.spec_shape().len() >= 1
        &&& (op.inputs@.len() > 2 ==> get_key(tensors, op.inputs@[2]@) is Some)
    }

    /// The bindings the convolution compile pushes.
    pub open spec fn spec_bindings(
        &self,
        m0: Map<Seq<char>, TValue>,
        op: Op,
        tensors: Seq<(Seq<char>, Tensor)>,
    ) -> Map<Seq<char>, TValue> {
        let x = get_key(tensors, op.inputs@[0]@)->Some_0;
        let w = get_key(tensors, op.inputs@[1]@)->Some_0;
        let y = get_key(tensors, op.outputs@[0]@)->Some_0;
        let m1 = m0.insert("X_type"@, TValue::Text(x.spec_type_glsl())).insert(
            "W_type"@,
            TValue::Text(w.spec_type_glsl()),
        ).insert("Y_type"@, TValue::Text(x.spec_type_glsl())).insert(
            "in_dim"@,
            TValue::Text(csv_ints(x.spec_shape())),
        ).insert("weight_dim"@, TValue::Text(csv_ints(w.spec_shape()))).insert(
            "out_dim"@,
            TValue::Text(csv_ints(y.spec_shape())),
        ).insert("dilations"@, TValue::Text(csv_ints(self.dilations@))).insert(
            "group"@,
            TValue::Int(self.group as int),
        ).insert("kernel_shape"@, TValue::Text(csv_ints(self.kernel_shape@))).insert(
            "pads"@,
            TValue::Text(csv_ints(self.pads@)),
        ).insert("strides"@, TValue::Text(csv_ints(self.strides@))).insert(
            "output_channels"@,
            TValue::Int(w.spec_shape()[0] as int),
        );
        if op.inputs@.len() > 2 {
            m1.insert("use_bias"@, TValue::Bool(true)).insert(
                "B_type"@,
                TValue::Text(get_key(tensors, op.inputs@[2]@)->Some_0.spec_type_glsl()),
            )
        } else {
            m1
        }
    }

    /// Binds a convolution: the element types, the input, weight and
    /// output shapes, the full attribute set, the output channel count
    /// read off the weight's first axis, and the bias type when a bias is
    /// bound. The context is only written on success.
    pub fn compile(&self, op: &Op, shader_template: &mut ShaderTemplate, graph: &Graph) -> (r:
        Result<(), GosonnxError>)
        ensures
            (r is Ok) <==> self.compile_ok(*op, graph.tensor_map@),
            r is Err ==> *final(shader_template) == *old(shader_template),
            r is Ok ==> final(shader_template).bindings() == self.spec_bindings(
                old(shader_template).bindings(),
                *op,
                graph.tensor_map@,
            ),
            final(shader_template).templates() == old(shader_template).templates(),
            final(shader_template).name() == old(shader_template).name(),
    {
        if op.inputs.len() < 2 {
            return Err(GosonnxError::InvalidInputNo { expected: 2, found: op.inputs.len() });
        }
        if op.outputs.len() < 1 {
            return Err(GosonnxError::Error("a convolution needs an output".to_owned()));
        }
        let x = match lookup_tensor(graph, &op.inputs[0]) {
            Ok(t) => t,
            Err(e) => {
                return Err(e);
            }
        };
        let w = match lookup_tensor(graph, &op.inputs[1]) {
            Ok(t) => t,
            Err(e) => {
                return Err(e);
            }
        };
        let y = match lookup_tensor(graph, &op.outputs[0]) {
            Ok(t) => t,
            Err(e) => {
                return Err(e);
            }
        };
        let ws = w.shape();
        if ws.len() < 1 {
            return Err(GosonnxError::InvalidInputDimension { expected: 1, found: ws.len() });
        }
        let mut bias_type: Option<String> = None;
        if op.inputs.len() > 2 {
            match lookup_tensor(graph, &op.inputs[2]) {
                Ok(b) => {
                    bias_type = Some(b.type_glsl());
                }
                Err(e) => {
                    return Err(e);
                }
            }
        }
        shader_template.push_attr("X_type", TemplateValue::Text(x.type_glsl()));
        shader_template.push_attr("W_type", TemplateValue::Text(w.type_glsl()));
        shader_template.push_attr("Y_type", TemplateValue::Text(x.type_glsl()));
        shader_template.push_attr("in_dim", TemplateValue::Text(to_csv_str(&x.shape())));
        shader_template.push_attr("weight_dim", TemplateValue::Text(to_csv_str(&ws)));
        shader_template.push_attr("out_dim", TemplateValue::Text(to_csv_str(&y.shape())));
        shader_template.push_attr("dilations", TemplateValue::Text(to_csv_str(&self.dilations)));
        shader_template.push_attr("group", TemplateValue::Int(self.group));
        shader_template.push_attr(
            "kernel_shape",
            TemplateValue::Text(to_csv_str(&self.kernel_shape)),
        );
        shader_template.push_attr("pads", TemplateValue::Text(to_csv_str(&self.pads)));
        shader_template.push_attr("strides", TemplateValue::Text(to_csv_str(&self.strides)));
        shader_template.push_attr("output_channels", TemplateValue::Int(ws[0]));
        match bias_type {
            Some(bt) => {
                shader_template.push_attr("use_bias", TemplateValue::Bool(true));
                shader_template.push_attr("B_type", TemplateValue::Text(bt));
            }
            None => {}
        }
        Ok(())
    }

    /// One workgroup per 16×16 spatial block, one layer per
    /// batch-channel pair of the output.
    pub fn compute_workgroup_size(&self, op: &Op, graph: &Graph) -> (r: [u32; 3])
        requires
            conv_wg_ok(*op, graph.tensor_map@),
        ensures
            r@[0] == (out_shape(*op, graph.tensor_map@)[3] + 15) / 16,
            r@[1] == (out_shape(*op, graph.tensor_map@)[2] + 15) / 16,
            r@[2] == out_shape(*op, graph.tensor_map@)[0] * out_shape(*op, graph.tensor_map@)[1],
    {
        match conv_geometry(op, graph) {
            Ok(r) => r,
            Err(_) => {
                proof {
                    assert(false);
                }
                [0, 0, 1]
            }
        }
    }
}

} // verus!
