use vstd::prelude::*;

use crate::errors::GosonnxError;
use crate::graph::{Graph, Op, Tensor};
use crate::ops::{
    lookup_tensor, out_shape, pool_geometry, pool_wg_ok, to_csv_str, ShaderTemplate, TValue,
    TemplateValue,
};
use crate::store::get_key;
use crate::utils::{copy_vec, csv_ints};

verus! {

/// Windowed average pooling over rank-4 inputs; attributes are optional
/// and defaulted at compile time, except `kernel_shape`, which is
/// required.
#[derive(Debug)]
pub struct AveragePoolOp {
    pub auto_pad: Option<String>,
    pub ceil_mode: Option<i64>,
    pub dilations: Option<Vec<i64>>,
    pub kernel_shape: Option<Vec<i64>>,
    pub pads: Option<Vec<i64>>,
    pub strides: Option<Vec<i64>>,
}

impl AveragePoolOp {
    pub fn new(
        auto_pad: Option<String>,
        ceil_mode: Option<i64>,
        dilations: Option<Vec<i64>>,
        kernel_shape: Option<Vec<i64>>,
        pads: Option<Vec<i64>>,
        strides: Option<Vec<i64>>,
    ) -> (r: Self)
        ensures
            r.auto_pad == auto_pad,
            r.ceil_mode == ceil_mode,
            r.dilations == dilations,
            r.kernel_shape == kernel_shape,
            r.pads == pads,
            r.strides == strides,
    {
        AveragePoolOp { auto_pad, ceil_mode, dilations, kernel_shape, pads, strides }
    }

    /// What the pooling compile needs: a rank-4 input, an output, and a
    /// kernel shape.
    pub open spec fn compile_ok(&self, op: Op, tensors: Seq<(Seq<char>, Tensor)>) -> bool {
        &&& op.inputs@.len() >= 1
        &&& op.outputs@.len() >= 1
        &&& get_key(tensors, op.inputs@[0]@) is Some
        &&& get_key(tensors, op.outputs@[0]@) is Some
        &&& get_key(tensors, op.inputs@[0]@)->Some_0.spec_shape().len() == 4
        &&& self.kernel_shape is Some
    }

    /// The bindings the pooling compile pushes, with the documented
    /// defaults for absent attributes.
    pub open spec fn spec_bindings(
        &self,
        m0: Map<Seq<char>, TValue>,
        op: Op,
        tensors: Seq<(Seq<char>, Tensor)>,
    ) -> Map<Seq<char>, TValue> {
        let x = get_key(tensors, op.inputs@[0]@)->Some_0;
        let y = get_key(tensors, op.outputs@[0]@)->Some_0;
        m0.insert("X_type"@, TValue::Text(x.spec_type_glsl())).insert(
            "Y_type"@,
            TValue::Text(y.spec_type_glsl()),
        ).insert("in_dim"@, TValue::Text(csv_ints(x.spec_shape()))).insert(
            "out_dim"@,
            TValue::Text(csv_ints(y.spec_shape())),
        ).insert(
            "auto_pad"@,
            TValue::Text(match self.auto_pad {
                Some(v) => v@,
                None => "NOTSET"@,
            }),
        ).insert(
            "ceil_mode"@,
            TValue::Int(match self.ceil_mode {
                Some(v) => v as int,
                None => 0,
            }),
        ).insert(
            "dilations"@,
            TValue::Text(csv_ints(match self.dilations {
                Some(v) => v@,
                None => seq![1i64, 1i64, 1i64, 1i64],
            })),
        ).insert("kernel_shape"@, TValue::Text(csv_ints(self.kernel_shape->Some_0@))).insert(
            "pads"@,
            TValue::Text(csv_ints(match self.pads {
                Some(v) => v@,
                None => seq![0i64, 0i64, 0i64, 0i64],
            })),
        ).insert(
            "strides"@,
            TValue::Text(csv_ints(match self.strides {
                Some(v) => v@,
                None => seq![1i64, 1i64],
            })),
        )
    }

    /// Binds an average pool: the element types, the input and output
    /// shapes, and the pool attribute set with its documented defaults.
    /// A non-rank-4 input or an absent kernel shape is rejected; the
    /// context is only written on success.
    pub fn compile(&self, op: &Op, shader_templ: &mut ShaderTemplate, graph: &Graph) -> (r: Result<
        (),
        GosonnxError,
    >)
        ensures
            (r is Ok) <==> self.compile_ok(*op, graph.tensor_map@),
            r is Err ==> *final(shader_templ) == *old(shader_templ),
            r is Ok ==> final(shader_templ).bindings() == self.spec_bindings(
                old(shader_templ).bindings(),
                *op,
                graph.tensor_map@,
            ),
            ({
                let tensors = graph.tensor_map@;
                (op.inputs@.len() >= 1 && op.outputs@.len() >= 1 && get_key(
                    tensors,
                    op.inputs@[0]@,
                ) is Some && get_key(tensors, op.outputs@[0]@) is Some && get_key(
                    tensors,
                    op.inputs@[0]@,
                )->Some_0.spec_shape().len() != 4) ==> r is Err && r->Err_0
                    is InvalidInputDimension && r->Err_0->InvalidInputDimension_expected == 4
                    && r->Err_0->InvalidInputDimension_found == get_key(
                    tensors,
                    op.inputs@[0]@,
                )->Some_0.spec_shape().len() as usize
            }),
            ({
                let tensors = graph.tensor_map@;
                (op.inputs@.len() >= 1 && op.outputs@.len() >= 1 && get_key(
                    tensors,
                    op.inputs@[0]@,
                ) is Some && get_key(tensors, op.outputs@[0]@) is Some && get_key(
                    tensors,
                    op.inputs@[0]@,
                )->Some_0.spec_shape().len() == 4 && self.kernel_shape is None) ==> r is Err
                    && r->Err_0 is AttributeNotFound && r->Err_0->AttributeNotFound_0@
                    == "kernel_shape"@
            }),
            final(shader_templ).templates() == old(shader_templ).templates(),
            final(shader_templ).name() == old(shader_templ).name(),
    {
        if op.inputs.len() < 1 {
            return Err(GosonnxError::InvalidInputNo { expected: 1, found: op.inputs.len() });
        }
        if op.outputs.len() < 1 {
            return Err(GosonnxError::Error("a pool needs an output".to_owned()));
        }
        let x = match lookup_tensor(graph, &op.inputs[0]) {
            Ok(t) => t,
            Err(e) => {
                return Err(e);
            }
        };
        let y = match lookup_tensor(graph, &op.outputs[0]) {
            Ok(t) => t,
            Err(e) => {
                return Err(e);
            }
        };
        let xs = x.shape();
        if xs.len() != 4 {
            return Err(GosonnxError::InvalidInputDimension { expected: 4, found: xs.len() });
        }
        let kernel_shape = match &self.kernel_shape {
            Some(v) => copy_vec(v),
            None => {
                return Err(GosonnxError::AttributeNotFound("kernel_shape".to_owned()));
            }
        };
        let auto_pad = match &self.auto_pad {
            Some(v) => v.clone(),
            None => "NOTSET".to_owned(),
        };
        let ceil_mode = match self.ceil_mode {
            Some(v) => v,
            None => 0,
        };
        let dilations = match &self.dilations {
            Some(v) => copy_vec(v),
            None => {
                let mut d: Vec<i64> = Vec::new();
                d.push(1);
                d.push(1);
                d.push(1);
                d.push(1);
                proof {
                    assert(d@ =~= seq![1i64, 1i64, 1i64, 1i64]);
                }
                d
            }
        };
        let pads = match &self.pads {
            Some(v) => copy_vec(v),
            None => {
                let mut d: Vec<i64> = Vec::new();
                d.push(0);
                d.push(0);
                d.push(0);
                d.push(0);
                proof {
                    assert(d@ =~= seq![0i64, 0i64, 0i64, 0i64]);
                }
                d
            }
        };
        let strides = match &self.strides {
            Some(v) => copy_vec(v),
            None => {
                let mut d: Vec<i64> = Vec::new();
                d.push(1);
                d.push(1);
                proof {
                    assert(d@ =~= seq![1i64, 1i64]);
                }
                d
            }
        };
        shader_templ.push_attr("X_type", TemplateValue::Text(x.type_glsl()));
        shader_templ.push_attr("Y_type", TemplateValue::Text(y.type_glsl()));
        shader_templ.push_attr("in_dim", TemplateValue::Text(to_csv_str(&xs)));
        shader_templ.push_attr("out_dim", TemplateValue::Text(to_csv_str(&y.shape())));
        shader_templ.push_attr("auto_pad", TemplateValue::Text(auto_pad));
        shader_templ.push_attr("ceil_mode", TemplateValue::Int(ceil_mode));
        shader_templ.push_attr("dilations", TemplateValue::Text(to_csv_str(&dilations)));
        shader_templ.push_attr("kernel_shape", TemplateValue::Text(to_csv_str(&kernel_shape)));
        shader_templ.push_attr("pads", TemplateValue::Text(to_csv_str(&pads)));
        shader_templ.push_attr("strides", TemplateValue::Text(to_csv_str(&strides)));
        Ok(())
    }

    /// One workgroup per 16×4 spatial block and 4 batch-channel layers
    /// of the output.
    pub fn compute_workgroup_size(&self, op: &Op, graph: &Graph) -> (r: [u32; 3])
        requires
            pool_wg_ok(*op, graph.tensor_map@),
        ensures
            r@[0] == (out_shape(*op, graph.tensor_map@)[3] + 15) / 16,
            r@[1] == (out_shape(*op, graph.tensor_map@)[2] + 3) / 4,
            r@[2] == (out_shape(*op, graph.tensor_map@)[0] * out_shape(*op, graph.tensor_map@)[1]
                + 3) / 4,
    {
        match pool_geometry(op, graph) {
            Ok(r) => r,
            Err(_) => {
                proof {
                    assert(false);
                }
                [0, 0, 1]
            }
        }
    }
}

} // verus!
