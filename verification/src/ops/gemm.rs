use vstd::prelude::*;

use crate::errors::GosonnxError;
use crate::graph::{Graph, Op, Tensor};
use crate::ops::{lookup_tensor, pair_geometry, pair_wg_ok, out_shape, ShaderTemplate, TValue, TemplateValue};
use crate::store::get_key;

verus! {

/// General matrix multiply. `alpha` and `beta` are scalar factors held in
/// the textual form the shader template interpolates; `activation` is
/// filled by the optimizer when an activation is fused in.
#[derive(Debug)]
pub struct GemmOp {
    pub alpha: Option<String>,
    pub beta: Option<String>,
    pub trans_a: Option<i64>,
    pub trans_b: Option<i64>,
    pub activation: Option<String>,
}

impl GemmOp {
    pub fn new(
        alpha: Option<String>,
        beta: Option<String>,
        trans_a: Option<i64>,
        trans_b: Option<i64>,
    ) -> (r: Self)
        ensures
            r.alpha == alpha,
            r.beta == beta,
            r.trans_a == trans_a,
            r.trans_b == trans_b,
            r.activation is None,
    {
        GemmOp { alpha, beta, trans_a, trans_b, activation: None }
    }

    /// What the matrix-multiply compile needs: two rank-2 inputs of one
    /// GLSL element type, and — when a bias name is given and registered —
    /// a bias of that type with rank 1 or 2.
    pub open spec fn compile_ok(&self, op: Op, tensors: Seq<(Seq<char>, Tensor)>) -> bool {
        &&& op.inputs@.len() >= 2
        &&& get_key(tensors, op.inputs@[0]@) is Some
        &&& get_key(tensors, op.inputs@[1]@) is Some
        &&& {
            let a = get_key(tensors, op.inputs@[0]@)->Some_0;
            let b = get_key(tensors, op.inputs@[1]@)->Some_0;
            &&& a.spec_type_glsl() == b.spec_type_glsl()
            &&& a.spec_shape().len() >= 2
            &&& b.spec_shape().len() >= 2
            &&& (op.inputs@.len() > 2 && get_key(tensors, op.inputs@[2]@) is Some ==> {
                let bias = get_key(tensors, op.inputs@[2]@)->Some_0;
                &&& bias.spec_type_glsl() == b.spec_type_glsl()
                &&& (bias.spec_shape().len() == 1 || bias.spec_shape().len() == 2)
            })
        }
    }

    /// The bindings the matrix-multiply compile pushes.
    pub open spec fn spec_bindings(&self, m0: Map<Seq<char>, TValue>, op: Op, tensors: Seq<(Seq<char>, Tensor)>) -> Map<Seq<char>, TValue> {
        let a = get_key(tensors, op.inputs@[0]@)->Some_0;
        let b = get_key(tensors, op.inputs@[1]@)->Some_0;
        let sa = a.spec_shape();
        let sb = b.spec_shape();
        let ta: int = match self.trans_a {
            Some(v) => v as int,
            None => 0,
        };
        let tb: int = match self.trans_b {
            Some(v) => v as int,
            None => 0,
        };
        let m = if ta == 0 { sa[0] } else { sa[1] };
        let k = if tb == 0 { sb[0] } else { sb[1] };
        let n = if tb == 0 { sb[1] } else { sb[0] };
        let m1 = m0.insert("use_bias"@, TValue::Bool(op.inputs@.len() > 2)).insert(
            "alpha"@,
            TValue::Text(match self.alpha {
                Some(v) => v@,
                None => "1.0"@,
            }),
        ).insert(
            "beta"@,
            TValue::Text(match self.beta {
                Some(v) => v@,
                None => "1.0"@,
            }),
        ).insert("trans_a"@, TValue::Int(ta)).insert("trans_b"@, TValue::Int(tb)).insert(
            "in_type"@,
            TValue::Text(a.spec_type_glsl()),
        ).insert("out_type"@, TValue::Text(b.spec_type_glsl())).insert(
            "m"@,
            TValue::Int(m as int),
        ).insert("k"@, TValue::Int(k as int)).insert("n"@, TValue::Int(n as int));
        let m2 = if op.inputs@.len() > 2 && get_key(tensors, op.inputs@[2]@) is Some {
            let bias = get_key(tensors, op.inputs@[2]@)->Some_0;
            let mb = m1.insert("bias_type"@, TValue::Text(bias.spec_type_glsl()));
            if bias.spec_shape().len() == 2 {
                mb.insert("bias_h"@, TValue::Int(bias.spec_shape()[0] as int)).insert(
                    "bias_w"@,
                    TValue::Int(bias.spec_shape()[1] as int),
                )
            } else {
                mb.insert("bias_h"@, TValue::Int(1)).insert(
                    "bias_w"@,
                    TValue::Int(bias.spec_shape()[0] as int),
                )
            }
        } else {
            m1
        };
        m2.insert(
            "activation"@,
            match self.activation {
                Some(v) => TValue::Text(v@),
                None => TValue::Null,
            },
        )
    }

    /// Binds a matrix multiply: the scalar factors and transpose flags,
    /// the element types, the M/K/N extents read off the two inputs
    /// honouring the transpose flags, the bias extents when a bias is
    /// bound, and the fused activation tag. Incompatible element types
    /// are rejected; the context is only written on success.
    pub fn compile(&self, op: &Op, shader_templ: &mut ShaderTemplate, graph: &Graph) -> (r: Result<
        (),
        GosonnxError,
    >)
        ensures
            (r is Ok) <==> self.compile_ok(*op, graph.tensor_map@),
            r is Err ==> *final(shader_templ) == *old(shader_templ),
            r is Ok ==> final(shader_templ).bindings() == self.spec_bindings(
                old(shader_templ).bindings(),
                *op,
                graph.tensor_map@,
            ),
            op.inputs@.len() < 2 ==> r is Err && r->Err_0 is InvalidInputNo
                && r->Err_0->InvalidInputNo_expected == 2 && r->Err_0->InvalidInputNo_found
                == op.inputs@.len(),
            ({
                let tensors = graph.tensor_map@;
                (op.inputs@.len() >= 2 && get_key(tensors, op.inputs@[0]@) is Some && get_key(
                    tensors,
                    op.inputs@[1]@,
                ) is Some && get_key(tensors, op.inputs@[0]@)->Some_0.spec_type_glsl() != get_key(
                    tensors,
                    op.inputs@[1]@,
                )->Some_0.spec_type_glsl()) ==> r is Err && r->Err_0 is OpsOnIncompatibleTypeError
                    && r->Err_0->OpsOnIncompatibleTypeError_left@ == get_key(
                    tensors,
                    op.inputs@[0]@,
                )->Some_0.spec_type_glsl() && r->Err_0->OpsOnIncompatibleTypeError_right@
                    == get_key(tensors, op.inputs@[1]@)->Some_0.spec_type_glsl()
            }),
            ({
                let tensors = graph.tensor_map@;
                let a = get_key(tensors, op.inputs@[0]@)->Some_0;
                let b = get_key(tensors, op.inputs@[1]@)->Some_0;
                (op.inputs@.len() >= 2 && get_key(tensors, op.inputs@[0]@) is Some && get_key(
                    tensors,
                    op.inputs@[1]@,
                ) is Some && a.spec_type_glsl() == b.spec_type_glsl() && (a.spec_shape().len() < 2
                    || b.spec_shape().len() < 2)) ==> r is Err && r->Err_0 is InvalidInputDimension
                    && r->Err_0->InvalidInputDimension_expected == 2
                    && r->Err_0->InvalidInputDimension_found == (if a.spec_shape().len() < 2 {
                    a.spec_shape().len() as usize
                } else {
                    b.spec_shape().len() as usize
                })
            }),
            ({
                let tensors = graph.tensor_map@;
                let a = get_key(tensors, op.inputs@[0]@)->Some_0;
                let b = get_key(tensors, op.inputs@[1]@)->Some_0;
                let bias = get_key(tensors, op.inputs@[2]@)->Some_0;
                (op.inputs@.len() > 2 && get_key(tensors, op.inputs@[0]@) is Some && get_key(
                    tensors,
                    op.inputs@[1]@,
                ) is Some && get_key(tensors, op.inputs@[2]@) is Some && a.spec_type_glsl()
                    == b.spec_type_glsl() && a.spec_shape().len() >= 2 && b.spec_shape().len() >= 2
                    && (bias.spec_type_glsl() != b.spec_type_glsl() || bias.spec_shape().len() == 0
                    || bias.spec_shape().len() > 2)) ==> r is Err && r->Err_0 is Error
            }),
            final(shader_templ).templates() == old(shader_templ).templates(),
            final(shader_templ).name() == old(shader_templ).name(),
    {
        if op.inputs.len() < 2 {
            return Err(GosonnxError::InvalidInputNo { expected: 2, found: op.inputs.len() });
        }
        let t_a = match lookup_tensor(graph, &op.inputs[0]) {
            Ok(t) => t,
            Err(e) => {
                return Err(e);
            }
        };
        let t_b = match lookup_tensor(graph, &op.inputs[1]) {
            Ok(t) => t,
            Err(e) => {
                return Err(e);
            }
        };
        let a_type = t_a.type_glsl();
        let b_type = t_b.type_glsl();
        if !crate::store::str_eq(a_type.as_str(), b_type.as_str()) {
            return Err(GosonnxError::OpsOnIncompatibleTypeError { left: a_type, right: b_type });
        }
        let sa = t_a.shape();
        let sb = t_b.shape();
        if sa.len() < 2 || sb.len() < 2 {
            return Err(GosonnxError::InvalidInputDimension {
                expected: 2,
                found: if sa.len() < 2 {
                    sa.len()
                } else {
                    sb.len()
                },
            });
        }
        let mut bias_found = false;
        let mut bias_h: i64 = 0;
        let mut bias_w: i64 = 0;
        let mut bias_type = String::new();
        if op.inputs.len() > 2 {
            match graph.tensor_map.get(op.inputs[2].as_str()) {
                None => {}
                Some(bias) => {
                    let bt = bias.type_glsl();
                    if !crate::store::str_eq(bt.as_str(), b_type.as_str()) {
                        return Err(
                            GosonnxError::Error(
                                "Bias type must be identical with input and weight tensors".to_owned(),
                            ),
                        );
                    }
                    let bs = bias.shape();
                    if bs.len() == 2 {
                        bias_h = bs[0];
                        bias_w = bs[1];
                    } else if bs.len() == 1 {
                        bias_h = 1;
                        bias_w = bs[0];
                    } else {
                        return Err(
                            GosonnxError::Error("Cannot handle bias with rank more than 2".to_owned()),
                        );
                    }
                    bias_found = true;
                    bias_type = bt;
                }
            }
        }
        shader_templ.push_attr("use_bias", TemplateValue::Bool(op.inputs.len() > 2));
        let alpha = match &self.alpha {
            Some(v) => v.clone(),
            None => "1.0".to_owned(),
        };
        let beta = match &self.beta {
            Some(v) => v.clone(),
            None => "1.0".to_owned(),
        };
        shader_templ.push_attr("alpha", TemplateValue::Text(alpha));
        shader_templ.push_attr("beta", TemplateValue::Text(beta));
        let trans_a = match self.trans_a {
            Some(v) => v,
            None => 0,
        };
        let trans_b = match self.trans_b {
            Some(v) => v,
            None => 0,
        };
        shader_templ.push_attr("trans_a", TemplateValue::Int(trans_a));
        shader_templ.push_attr("trans_b", TemplateValue::Int(trans_b));
        shader_templ.push_attr("in_type", TemplateValue::Text(a_type));
        shader_templ.push_attr("out_type", TemplateValue::Text(b_type));
        let m = if trans_a == 0 {
            sa[0]
        } else {
            sa[1]
        };
        let k = if trans_b == 0 {
            sb[0]
        } else {
            sb[1]
        };
        let n = if trans_b == 0 {
            sb[1]
        } else {
            sb[0]
        };
        shader_templ.push_attr("m", TemplateValue::Int(m));
        shader_templ.push_attr("k", TemplateValue::Int(k));
        shader_templ.push_attr("n", TemplateValue::Int(n));
        if bias_found {
            shader_templ.push_attr("bias_type", TemplateValue::Text(bias_type));
            shader_templ.push_attr("bias_h", TemplateValue::Int(bias_h));
            shader_templ.push_attr("bias_w", TemplateValue::Int(bias_w));
        }
        let activation = match &self.activation {
            Some(v) => Some(v.clone()),
            None => None,
        };
        shader_templ.push_attr("activation", TemplateValue::OptText(activation));
        Ok(())
    }

    /// One workgroup per 16×16 output tile: columns in x, rows in y.
    pub fn compute_workgroup_size(&self, op: &Op, graph: &Graph) -> (r: [u32; 3])
        requires
            pair_wg_ok(*op, graph.tensor_map@, 1, 16, 0, 16),
        ensures
            r@[0] == (out_shape(*op, graph.tensor_map@)[1] + 15) / 16,
            r@[1] == (out_shape(*op, graph.tensor_map@)[0] + 15) / 16,
            r@[2] == 1u32,
    {
        match pair_geometry(op, graph, 1, 16, 0, 16) {
            Ok(r) => r,
            Err(_) => {
                proof {
                    assert(false);
                }
                [0, 0, 1]
            }
        }
    }
}

} // verus!
