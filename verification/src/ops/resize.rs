use vstd::prelude::*;

use crate::errors::GosonnxError;
use crate::graph::{Graph, Op, Tensor};
use crate::ops::{
    lookup_tensor, out_shape, records_value, resize_geometry, resize_wg_ok, to_csv_str,
    InputRecord, RecordModel, ShaderTemplate, TValue, TemplateValue,
};
use crate::store::get_key;
use crate::utils::{copy_vec, csv_fixed2, csv_ints, f32_bits_csv};

verus! {

/// Spatial resizing of a rank-4 input. Scalar attributes that ONNX types
/// as floats are held in the textual form the shader template
/// interpolates. Only the nearest mode is implemented; the other modes
/// fall back to it.
#[derive(Debug)]
pub struct ResizeOp {
    pub antialias: Option<i64>,
    pub axes: Option<Vec<i64>>,
    pub coordinate_transformation_mode: Option<String>,
    pub cubic_coeff_a: Option<String>,
    pub exclude_outside: Option<i64>,
    pub extrapolation_value: Option<String>,
    pub keep_aspect_ratio_policy: Option<String>,
    pub mode: Option<String>,
    pub nearest_mode: Option<String>,
}

/// The per-input records the resize binds: each input's GLSL type, rank
/// and shape in comma-separated form, in input order.
pub open spec fn resize_records(inputs: Seq<String>, tensors: Seq<(Seq<char>, Tensor)>) -> Seq<
    RecordModel,
>
    decreases inputs.len(),
{
    if inputs.len() == 0 {
        Seq::empty()
    } else {
        resize_records(inputs.drop_last(), tensors).push(
            {
                let t = get_key(tensors, inputs.last()@)->Some_0;
                RecordModel {
                    dtype: t.spec_type_glsl(),
                    n_dim: t.spec_shape().len() as int,
                    shape_csv: csv_ints(t.spec_shape()),
                    strides_csv: None,
                }
            },
        )
    }
}

/// The integer code of a nearest-rounding mode name; unknown names fall
/// back to round-prefer-floor.
pub open spec fn nearest_mode_code(name: Seq<char>) -> int {
    if name == "round_prefer_floor"@ {
        0
    } else if name == "round_prefer_ceil"@ {
        1
    } else if name == "floor"@ {
        2
    } else if name == "ceil"@ {
        3
    } else {
        0
    }
}

impl ResizeOp {
    pub fn new(
        antialias: Option<i64>,
        axes: Option<Vec<i64>>,
        coordinate_transformation_mode: Option<String>,
        cubic_coeff_a: Option<String>,
        exclude_outside: Option<i64>,
        extrapolation_value: Option<String>,
        keep_aspect_ratio_policy: Option<String>,
        mode: Option<String>,
        nearest_mode: Option<String>,
    ) -> (r: Self)
        ensures
            r.antialias == antialias,
            r.axes == axes,
            r.coordinate_transformation_mode == coordinate_transformation_mode,
            r.cubic_coeff_a == cubic_coeff_a,
            r.exclude_outside == exclude_outside,
            r.extrapolation_value == extrapolation_value,
            r.keep_aspect_ratio_policy == keep_aspect_ratio_policy,
            r.mode == mode,
            r.nearest_mode == nearest_mode,
    {
        ResizeOp {
            antialias,
            axes,
            coordinate_transformation_mode,
            cubic_coeff_a,
            exclude_outside,
            extrapolation_value,
            keep_aspect_ratio_policy,
            mode,
            nearest_mode,
        }
    }

    /// What the resize compile needs: a rank-4 data input, an output, a
    /// 32-bit float region-of-interest second input, a third input that
    /// carries scale factors (32-bit float, with values) or target sizes
    /// (64-bit integer, with values), every input registered, and a mode.
    pub open spec fn compile_ok(&self, op: Op, tensors: Seq<(Seq<char>, Tensor)>) -> bool {
        &&& op.inputs@.len() >= 3
        &&& op.outputs@.len() >= 1
        &&& (forall|i: int|
            0 <= i < op.inputs@.len() ==> get_key(tensors, #[trigger] op.inputs@[i]@) is Some)
        &&& get_key(tensors, op.outputs@[0]@) is Some
        &&& get_key(tensors, op.inputs@[0]@)->Some_0.spec_shape().len() == 4
        &&& (get_key(tensors, op.inputs@[1]@)->Some_0 is F32)
        &&& (match get_key(tensors, op.inputs@[2]@)->Some_0 {
            Tensor::F32 { values, .. } => values is Some,
            Tensor::I64 { values, .. } => values is Some,
            Tensor::F64 { .. } => false,
        })
        &&& self.mode is Some
    }

    /// The bindings the resize compile pushes.
    pub open spec fn spec_bindings(
        &self,
        m0: Map<Seq<char>, TValue>,
        op: Op,
        tensors: Seq<(Seq<char>, Tensor)>,
    ) -> Map<Seq<char>, TValue> {
        let x = get_key(tensors, op.inputs@[0]@)->Some_0;
        let y = get_key(tensors, op.outputs@[0]@)->Some_0;
        let m1 = m0.insert(
            "input_info_arr"@,
            records_value(resize_records(op.inputs@, tensors)),
        ).insert("output_binding_no"@, TValue::Int(op.inputs@.len() as int)).insert(
            "output_dtype"@,
            TValue::Text(y.spec_type_glsl()),
        );
        let m2 = match get_key(tensors, op.inputs@[2]@)->Some_0 {
            Tensor::F32 { values, .. } => m1.insert(
                "scales"@,
                TValue::Text(csv_fixed2(values->Some_0@)),
            ).insert("scales_len"@, TValue::Int(values->Some_0@.len() as int)),
            Tensor::I64 { values, .. } => m1.insert(
                "sizes"@,
                TValue::Text(csv_ints(values->Some_0@)),
            ),
            Tensor::F64 { .. } => m1,
        };
        m2.insert("in_dim"@, TValue::Text(csv_ints(x.spec_shape()))).insert(
            "in_type"@,
            TValue::Text(x.spec_type_glsl()),
        ).insert("out_dim"@, TValue::Text(csv_ints(y.spec_shape()))).insert(
            "out_type"@,
            TValue::Text(y.spec_type_glsl()),
        ).insert("antialias"@, TValue::Int(0)).insert(
            "axes_csv"@,
            TValue::Text(csv_ints(match self.axes {
                Some(v) => v@,
                None => seq![0i64, 1i64, 2i64, 3i64],
            })),
        ).insert(
            "axes_len"@,
            TValue::Int(match self.axes {
                Some(v) => v@.len() as int,
                None => 4,
            }),
        ).insert("mode"@, TValue::Int(0)).insert(
            "nearest_mode"@,
            TValue::Int(nearest_mode_code(match self.nearest_mode {
                Some(v) => v@,
                None => "round_prefer_floor"@,
            })),
        )
    }

    /// Binds a resize: one record per input, the output binding slot and
    /// type, the scale factors (two-decimal text) or target sizes read
    /// from the third input's values, the data and output shapes and
    /// types, the axes with their documented default, and the integer
    /// codes of the sampling modes — every mode falls back to nearest,
    /// and the region-of-interest input is ignored. The context is only
    /// written on success.
    #[verifier::loop_isolation(false)]
    pub fn compile(&self, op: &Op, shader_templ: &mut ShaderTemplate, graph: &Graph) -> (r: Result<
        (),
        GosonnxError,
    >)
        ensures
            (r is Ok) <==> self.compile_ok(*op, graph.tensor_map@),
            r is Err ==> *final(shader_templ) == *old(shader_templ),
            r is Ok ==> final(shader_templ).bindings() == self.spec_bindings(
                old(shader_templ).bindings(),
                *op,
                graph.tensor_map@,
            ),
            ({
                let tensors = graph.tensor_map@;
                (op.inputs@.len() >= 1 && op.outputs@.len() >= 1 && get_key(
                    tensors,
                    op.inputs@[0]@,
                ) is Some && get_key(tensors, op.outputs@[0]@) is Some && get_key(
                    tensors,
                    op.inputs@[0]@,
                )->Some_0.spec_shape().len() != 4) ==> r is Err && r->Err_0
                    is InvalidInputDimension && r->Err_0->InvalidInputDimension_expected == 4
                    && r->Err_0->InvalidInputDimension_found == get_key(
                    tensors,
                    op.inputs@[0]@,
                )->Some_0.spec_shape().len() as usize
            }),
            ({
                let tensors = graph.tensor_map@;
                (op.inputs@.len() >= 1 && op.inputs@.len() < 3 && op.outputs@.len() >= 1
                    && get_key(tensors, op.inputs@[0]@) is Some && get_key(
                    tensors,
                    op.outputs@[0]@,
                ) is Some && get_key(tensors, op.inputs@[0]@)->Some_0.spec_shape().len() == 4)
                    ==> r is Err && r->Err_0 is InvalidInputNo
                    && r->Err_0->InvalidInputNo_expected == 3 && r->Err_0->InvalidInputNo_found
                    == op.inputs@.len()
            }),
            final(shader_templ).templates() == old(shader_templ).templates(),
            final(shader_templ).name() == old(shader_templ).name(),
    {
        if op.outputs.len() < 1 {
            return Err(GosonnxError::Error("a resize needs an output".to_owned()));
        }
        if op.inputs.len() < 1 {
            return Err(GosonnxError::InvalidInputNo { expected: 3, found: op.inputs.len() });
        }
        let x = match lookup_tensor(graph, &op.inputs[0]) {
            Ok(t) => t,
            Err(e) => {
                return Err(e);
            }
        };
        let output = match lookup_tensor(graph, &op.outputs[0]) {
            Ok(t) => t,
            Err(e) => {
                return Err(e);
            }
        };
        let xs = x.shape();
        if xs.len() != 4 {
            return Err(GosonnxError::InvalidInputDimension { expected: 4, found: xs.len() });
        }
        if op.inputs.len() < 3 {
            return Err(GosonnxError::InvalidInputNo { expected: 3, found: op.inputs.len() });
        }
        let roi = match lookup_tensor(graph, &op.inputs[1]) {
            Ok(t) => t,
            Err(e) => {
                return Err(e);
            }
        };
        match roi {
            Tensor::F32 { .. } => {}
            _ => {
                return Err(
                    GosonnxError::Error(
                        "the second input must be a 32-bit float region tensor".to_owned(),
                    ),
                );
            }
        }
        let third = match lookup_tensor(graph, &op.inputs[2]) {
            Ok(t) => t,
            Err(e) => {
                return Err(e);
            }
        };
        let scales_csv: Option<(String, usize)>;
        let sizes_csv: Option<String>;
        match third {
            Tensor::F32 { values, .. } => {
                match values {
                    Some(v) => {
                        scales_csv = Some((f32_bits_csv(v), v.len()));
                        sizes_csv = None;
                    }
                    None => {
                        return Err(
                            GosonnxError::Error("the scale input carries no values".to_owned()),
                        );
                    }
                }
            }
            Tensor::I64 { values, .. } => {
                match values {
                    Some(v) => {
                        sizes_csv = Some(to_csv_str(v));
                        scales_csv = None;
                    }
                    None => {
                        return Err(
                            GosonnxError::Error("the size input carries no values".to_owned()),
                        );
                    }
                }
            }
            Tensor::F64 { .. } => {
                return Err(GosonnxError::UnknownTensorType(third.type_glsl()));
            }
        }
        let mode_name = match &self.mode {
            Some(v) => v.clone(),
            None => {
                return Err(GosonnxError::AttributeNotFound("mode".to_owned()));
            }
        };
        let _ = mode_name;
        let n = op.inputs.len();
        let mut records: Vec<InputRecord> = Vec::new();
        for i in 0..n
            invariant
                n == op.inputs@.len(),
                records.deep_view() == resize_records(op.inputs@.take(i as int), graph.tensor_map@),
                forall|j: int|
                    0 <= j < n ==> get_key(graph.tensor_map@, #[trigger] op.inputs@[j]@) is Some
                        || j >= i,
        {
            proof {
                assert(op.inputs@.take(i + 1).drop_last() =~= op.inputs@.take(i as int));
                assert(op.inputs@.take(i + 1).last() == op.inputs@[i as int]);
            }
            let t = match lookup_tensor(graph, &op.inputs[i]) {
                Ok(t) => t,
                Err(e) => {
                    return Err(e);
                }
            };
            let ts = t.shape();
            let rec = InputRecord {
                dtype: t.type_glsl(),
                n_dim: ts.len(),
                shape_csv: to_csv_str(&ts),
                strides_csv: None,
            };
            records.push(rec);
            assert(records.deep_view() =~= resize_records(
                op.inputs@.take(i + 1),
                graph.tensor_map@,
            ));
        }
        proof {
            assert(op.inputs@.take(n as int) =~= op.inputs@);
        }
        shader_templ.push_attr("input_info_arr", TemplateValue::Records(records));
        shader_templ.push_attr("output_binding_no", TemplateValue::Uint(n));
        shader_templ.push_attr("output_dtype", TemplateValue::Text(output.type_glsl()));
        match scales_csv {
            Some((csv, len)) => {
                shader_templ.push_attr("scales", TemplateValue::Text(csv));
                shader_templ.push_attr("scales_len", TemplateValue::Uint(len));
            }
            None => {}
        }
        match sizes_csv {
            Some(csv) => {
                shader_templ.push_attr("sizes", TemplateValue::Text(csv));
            }
            None => {}
        }
        shader_templ.push_attr("in_dim", TemplateValue::Text(to_csv_str(&xs)));
        shader_templ.push_attr("in_type", TemplateValue::Text(x.type_glsl()));
        shader_templ.push_attr("out_dim", TemplateValue::Text(to_csv_str(&output.shape())));
        shader_templ.push_attr("out_type", TemplateValue::Text(output.type_glsl()));
        shader_templ.push_attr("antialias", TemplateValue::Int(0));
        let axes = match &self.axes {
            Some(v) => copy_vec(v),
            None => {
                let mut d: Vec<i64> = Vec::new();
                d.push(0);
                d.push(1);
                d.push(2);
                d.push(3);
                proof {
                    assert(d@ =~= seq![0i64, 1i64, 2i64, 3i64]);
                }
                d
            }
        };
        shader_templ.push_attr("axes_csv", TemplateValue::Text(to_csv_str(&axes)));
        shader_templ.push_attr("axes_len", TemplateValue::Uint(axes.len()));
        shader_templ.push_attr("mode", TemplateValue::Int(0));
        let nearest = match &self.nearest_mode {
            Some(v) => v.clone(),
            None => "round_prefer_floor".to_owned(),
        };
        let code: i64 = if crate::store::str_eq(nearest.as_str(), "round_prefer_floor") {
            0
        } else if crate::store::str_eq(nearest.as_str(), "round_prefer_ceil") {
            1
        } else if crate::store::str_eq(nearest.as_str(), "floor") {
            2
        } else if crate::store::str_eq(nearest.as_str(), "ceil") {
            3
        } else {
            0
        };
        shader_templ.push_attr("nearest_mode", TemplateValue::Int(code));
        Ok(())
    }

    /// One workgroup per 16 output columns and 16 rows of the folded
    /// height-channel extent.
    pub fn compute_workgroup_size(&self, op: &Op, graph: &Graph) -> (r: [u32; 3])
        requires
            resize_wg_ok(*op, graph.tensor_map@),
        ensures
            r@[0] == (out_shape(*op, graph.tensor_map@)[3] + 15) / 16,
            r@[1] == (out_shape(*op, graph.tensor_map@)[2] * out_shape(*op, graph.tensor_map@)[1]
                + 15) / 16,
            r@[2] == 1u32,
    {
        match resize_geometry(op, graph) {
            Ok(r) => r,
            Err(_) => {
                proof {
                    assert(false);
                }
                [0, 0, 1]
            }
        }
    }
}

} // verus!
