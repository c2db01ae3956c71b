use vstd::prelude::*;

use crate::errors::GosonnxError;
use crate::graph::{Graph, Op, Tensor};
use crate::ops::{
    conv_geometry, conv_wg_ok, lookup_tensor, out_shape, to_csv_str, ShaderTemplate, TValue,
    TemplateValue,
};
use crate::store::get_key;
use crate::utils::{copy_vec, csv_ints};

verus! {

/// Transposed convolution; every attribute is optional and defaulted at
/// compile time. Only `group` 1 is supported.
#[derive(Debug)]
pub struct ConvTransposeOp {
    pub dilations: Option<Vec<i64>>,
    pub group: Option<i64>,
    pub kernel_shape: Option<Vec<i64>>,
    pub output_padding: Option<Vec<i64>>,
    pub output_shape: Option<Vec<i64>>,
    pub pads: Option<Vec<i64>>,
    pub strides: Option<Vec<i64>>,
}

impl ConvTransposeOp {
    pub fn new(
        dilations: Option<Vec<i64>>,
        group: Option<i64>,
        kernel_shape: Option<Vec<i64>>,
        output_padding: Option<Vec<i64>>,
        output_shape: Option<Vec<i64>>,
        pads: Option<Vec<i64>>,
        strides: Option<Vec<i64>>,
    ) -> (r: Self)
        ensures
            r.dilations == dilations,
            r.group == group,
            r.kernel_shape == kernel_shape,
            r.output_padding == output_padding,
            r.output_shape == output_shape,
            r.pads == pads,
            r.strides == strides,
    {
        ConvTransposeOp {
            dilations,
            group,
            kernel_shape,
            output_padding,
            output_shape,
            pads,
            strides,
        }
    }

    /// What the transposed-convolution compile needs: group 1 (or
    /// absent), a kernel shape, input, weight and output tensors, a
    /// weight of rank at least 2, and — when a bias name is given — a
    /// registered bias.
    pub open spec fn compile_ok(&self, op: Op, tensors: Seq<(Seq<char>, Tensor)>) -> bool {
        &&& (match self.group {
            Some(g) => g <= 1,
            None => true,
        })
        &&& self.kernel_shape is Some
        &&& op.inputs@.len() >= 2
        &&& op.outputs@.len() >= 1
        &&& get_key(tensors, op.inputs@[0]@) is Some
        &&& get_key(tensors, op.inputs@[1]@) is Some
        &&& get_key(tensors, op.outputs@[0]@) is Some
        &&& get_key(tensors, op.inputs@[1]@)->Some_0.spec_shape().len() >= 2
        &&& (op.inputs@.len() > 2 ==> get_key(tensors, op.inputs@[2]@) is Some)
    }

    /// The bindings the transposed-convolution compile pushes, with the
    /// documented defaults for absent attributes.
    pub open spec fn spec_bindings(
        &self,
        m0: Map<Seq<char>, TValue>,
        op: Op,
        tensors: Seq<(Seq<char>, Tensor)>,
    ) -> Map<Seq<char>, TValue> {
        let x = get_key(tensors, op.inputs@[0]@)->Some_0;
        let w = get_key(tensors, op.inputs@[1]@)->Some_0;
        let y = get_key(tensors, op.outputs@[0]@)->Some_0;
        let dil = match self.dilations {
            Some(v) => v@,
            None => seq![1i64, 1i64],
        };
        let opad = match self.output_padding {
            Some(v) => v@,
            None => seq![0i64, 0i64],
        };
        let pads = match self.pads {
            Some(v) => v@,
            None => seq![0i64, 0i64, 0i64, 0i64],
        };
        let strides = match self.strides {
            Some(v) => v@,
            None => seq![1i64, 1i64],
        };
        let m1 = m0.insert("X_type"@, TValue::Text(x.spec_type_glsl())).insert(
            "W_type"@,
            TValue::Text(w.spec_type_glsl()),
        ).insert("Y_type"@, TValue::Text(x.spec_type_glsl())).insert(
            "in_dim"@,
            TValue::Text(csv_ints(x.spec_shape())),
        ).insert("weight_dim"@, TValue::Text(csv_ints(w.spec_shape()))).insert(
            "out_dim"@,
            TValue::Text(csv_ints(y.spec_shape())),
        ).insert("dilations"@, TValue::Text(csv_ints(dil))).insert(
            "group"@,
            match self.group {
                Some(g) => TValue::Int(g as int),
                None => TValue::Null,
            },
        ).insert(
            "kernel_shape"@,
            TValue::Text(csv_ints(self.kernel_shape->Some_0@)),
        ).insert("output_padding"@, TValue::Text(csv_ints(opad))).insert(
            "pads"@,
            TValue::Text(csv_ints(pads)),
        ).insert("strides"@, TValue::Text(csv_ints(strides))).insert(
            "output_channels"@,
            TValue::Int(w.spec_shape()[1] as int),
        );
        if op.inputs@.len() > 2 {
            m1.insert("use_bias"@, TValue::Bool(true)).insert(
                "B_type"@,
                TValue::Text(get_key(tensors, op.inputs@[2]@)->Some_0.spec_type_glsl()),
            )
        } else {
            m1
        }
    }

    /// Binds a transposed convolution: the element types, the shapes,
    /// the attribute set with its documented defaults, and the output
    /// channel count read off the weight's second axis. A group other
    /// than 1 is rejected; the context is only written on success.
    pub fn compile(&self, op: &Op, shader_template: &mut ShaderTemplate, graph: &Graph) -> (r:
        Result<(), GosonnxError>)
        ensures
            (r is Ok) <==> self.compile_ok(*op, graph.tensor_map@),
            r is Err ==> *final(shader_template) == *old(shader_template),
            r is Ok ==> final(shader_template).bindings() == self.spec_bindings(
                old(shader_template).bindings(),
                *op,
                graph.tensor_map@,
            ),
            (self.group is Some && self.group->Some_0 > 1) ==> r is Err && r->Err_0 is Error,
            final(shader_template).templates() == old(shader_template).templates(),
            final(shader_template).name() == old(shader_template).name(),
    {
        match self.group {
            Some(g) => {
                if g > 1 {
                    return Err(GosonnxError::Error("Only group=1 is supported".to_owned()));
                }
            }
            None => {}
        }
        let kernel_shape = match &self.kernel_shape {
            Some(v) => copy_vec(v),
            None => {
                return Err(GosonnxError::AttributeNotFound("kernel_shape".to_owned()));
            }
        };
        if op.inputs.len() < 2 {
            return Err(GosonnxError::InvalidInputNo { expected: 2, found: op.inputs.len() });
        }
        if op.outputs.len() < 1 {
            return Err(GosonnxError::Error("a transposed convolution needs an output".to_owned()));
        }
        let x = match lookup_tensor(graph, &op.inputs[0]) {
            Ok(t) => t,
            Err(e) => {
                return Err(e);
            }
        };
        let w = match lookup_tensor(graph, &op.inputs[1]) {
            Ok(t) => t,
            Err(e) => {
                return Err(e);
            }
        };
        let y = match lookup_tensor(graph, &op.outputs[0]) {
            Ok(t) => t,
            Err(e) => {
                return Err(e);
            }
        };
        let ws = w.shape();
        if ws.len() < 2 {
            return Err(GosonnxError::InvalidInputDimension { expected: 2, found: ws.len() });
        }
        let mut bias_type: Option<String> = None;
        if op.inputs.len() > 2 {
            match lookup_tensor(graph, &op.inputs[2]) {
                Ok(b) => {
                    bias_type = Some(b.type_glsl());
                }
                Err(e) => {
                    return Err(e);
                }
            }
        }
        let dilations = match &self.dilations {
            Some(v) => copy_vec(v),
            None => {
                let mut d: Vec<i64> = Vec::new();
                d.push(1);
                d.push(1);
                proof {
                    assert(d@ =~= seq![1i64, 1i64]);
                }
                d
            }
        };
        let output_padding = match &self.output_padding {
            Some(v) => copy_vec(v),
            None => {
                let mut d: Vec<i64> = Vec::new();
                d.push(0);
                d.push(0);
                proof {
                    assert(d@ =~= seq![0i64, 0i64]);
                }
                d
            }
        };
        let pads = match &self.pads {
            Some(v) => copy_vec(v),
            None => {
                let mut d: Vec<i64> = Vec::new();
                d.push(0);
                d.push(0);
                d.push(0);
                d.push(0);
                proof {
                    assert(d@ =~= seq![0i64, 0i64, 0i64, 0i64]);
                }
                d
            }
        };
        let strides = match &self.strides {
            Some(v) => copy_vec(v),
            None => {
                let mut d: Vec<i64> = Vec::new();
                d.push(1);
                d.push(1);
                proof {
                    assert(d@ =~= seq![1i64, 1i64]);
                }
                d
            }
        };
        shader_template.push_attr("X_type", TemplateValue::Text(x.type_glsl()));
        shader_template.push_attr("W_type", TemplateValue::Text(w.type_glsl()));
        shader_template.push_attr("Y_type", TemplateValue::Text(x.type_glsl()));
        shader_template.push_attr("in_dim", TemplateValue::Text(to_csv_str(&x.shape())));
        shader_template.push_attr("weight_dim", TemplateValue::Text(to_csv_str(&ws)));
        shader_template.push_attr("out_dim", TemplateValue::Text(to_csv_str(&y.shape())));
        shader_template.push_attr("dilations", TemplateValue::Text(to_csv_str(&dilations)));
        shader_template.push_attr("group", TemplateValue::OptInt(self.group));
        shader_template.push_attr("kernel_shape", TemplateValue::Text(to_csv_str(&kernel_shape)));
        shader_template.push_attr(
            "output_padding",
            TemplateValue::Text(to_csv_str(&output_padding)),
        );
        shader_template.push_attr("pads", TemplateValue::Text(to_csv_str(&pads)));
        shader_template.push_attr("strides", TemplateValue::Text(to_csv_str(&strides)));
        shader_template.push_attr("output_channels", TemplateValue::Int(ws[1]));
        match bias_type {
            Some(bt) => {
                shader_template.push_attr("use_bias", TemplateValue::Bool(true));
                shader_template.push_attr("B_type", TemplateValue::Text(bt));
            }
            None => {}
        }
        Ok(())
    }

    /// One workgroup per 16×16 spatial block, one layer per
    /// batch-channel pair of the output.
    pub fn compute_workgroup_size(&self, op: &Op, graph: &Graph) -> (r: [u32; 3])
        requires
            conv_wg_ok(*op, graph.tensor_map@),
        ensures
            r@[0] == (out_shape(*op, graph.tensor_map@)[3] + 15) / 16,
            r@[1] == (out_shape(*op, graph.tensor_map@)[2] + 15) / 16,
            r@[2] == out_shape(*op, graph.tensor_map@)[0] * out_shape(*op, graph.tensor_map@)[1],
    {
        match conv_geometry(op, graph) {
            Ok(r) => r,
            Err(_) => {
                proof {
                    assert(false);
                }
                [0, 0, 1]
            }
        }
    }
}

} // verus!
