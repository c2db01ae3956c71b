use vstd::prelude::*;

use crate::errors::GosonnxError;
use crate::graph::{Graph, Op, Tensor};
use crate::ops::bin_op::{check_strides_ok, shape_to_strides, spec_strides, strides_ok};
use crate::ops::{
    lookup_tensor, out_ew_wg_ok, out_shape, output_elementwise_geometry, records_value, to_csv_str,
    InputRecord, RecordModel, ShaderTemplate, TValue, TemplateValue,
};
use crate::store::get_key;
use crate::utils::{csv_ints, shape_product};

verus! {

/// Concatenation of any number of inputs along `axis`.
#[derive(Debug)]
pub struct ConcatOp {
    pub axis: i64,
}

/// The per-input records the concatenation binds: each input's GLSL
/// type, rank, shape and strides in comma-separated form, in input order.
pub open spec fn concat_records(inputs: Seq<String>, tensors: Seq<(Seq<char>, Tensor)>) -> Seq<
    RecordModel,
>
    decreases inputs.len(),
{
    if inputs.len() == 0 {
        Seq::empty()
    } else {
        concat_records(inputs.drop_last(), tensors).push(
            {
                let t = get_key(tensors, inputs.last()@)->Some_0;
                RecordModel {
                    dtype: t.spec_type_glsl(),
                    n_dim: t.spec_shape().len() as int,
                    shape_csv: csv_ints(t.spec_shape()),
                    strides_csv: Some(csv_ints(spec_strides(t.spec_shape()))),
                }
            },
        )
    }
}

impl ConcatOp {
    pub fn new(axis: i64) -> (r: Self)
        ensures
            r.axis == axis,
    {
        ConcatOp { axis }
    }

    /// What the concatenation compile needs: every input and the output
    /// registered, with machine-range strides.
    pub open spec fn compile_ok(&self, op: Op, tensors: Seq<(Seq<char>, Tensor)>) -> bool {
        &&& op.outputs@.len() >= 1
        &&& get_key(tensors, op.outputs@[0]@) is Some
        &&& (forall|i: int|
            0 <= i < op.inputs@.len() ==> get_key(tensors, #[trigger] op.inputs@[i]@) is Some)
        &&& (forall|i: int|
            0 <= i < op.inputs@.len() ==> strides_ok(
                get_key(tensors, #[trigger] op.inputs@[i]@)->Some_0.spec_shape(),
            ))
        &&& strides_ok(get_key(tensors, op.outputs@[0]@)->Some_0.spec_shape())
    }

    /// The bindings the concatenation compile pushes.
    pub open spec fn spec_bindings(
        &self,
        m0: Map<Seq<char>, TValue>,
        op: Op,
        tensors: Seq<(Seq<char>, Tensor)>,
    ) -> Map<Seq<char>, TValue> {
        let y = get_key(tensors, op.outputs@[0]@)->Some_0;
        m0.insert("concat_axis"@, TValue::Int(self.axis as int)).insert(
            "n_inputs"@,
            TValue::Int(op.inputs@.len() as int),
        ).insert("input_info_arr"@, records_value(concat_records(op.inputs@, tensors))).insert(
            "output_n_dim"@,
            TValue::Int(y.spec_shape().len() as int),
        ).insert("output_shape_csv"@, TValue::Text(csv_ints(y.spec_shape()))).insert(
            "output_dtype"@,
            TValue::Text(y.spec_type_glsl()),
        ).insert("output_binding_no"@, TValue::Int(op.inputs@.len() as int)).insert(
            "output_strides_csv"@,
            TValue::Text(csv_ints(spec_strides(y.spec_shape()))),
        )
    }

    /// Binds a concatenation: the axis, the input count, one record per
    /// input with its type, rank, shape and strides, and the output's
    /// rank, shape, strides, type and binding slot — which equals the
    /// input count, since the output is bound after the inputs. The
    /// context is only written on success.
    pub fn compile(&self, op: &Op, shader_templ: &mut ShaderTemplate, graph: &Graph) -> (r: Result<
        (),
        GosonnxError,
    >)
        ensures
            (r is Ok) <==> self.compile_ok(*op, graph.tensor_map@),
            r is Err ==> *final(shader_templ) == *old(shader_templ),
            r is Ok ==> final(shader_templ).bindings() == self.spec_bindings(
                old(shader_templ).bindings(),
                *op,
                graph.tensor_map@,
            ),
            final(shader_templ).templates() == old(shader_templ).templates(),
            final(shader_templ).name() == old(shader_templ).name(),
    {
        if op.outputs.len() < 1 {
            return Err(GosonnxError::Error("a concatenation needs an output".to_owned()));
        }
        let output = match lookup_tensor(graph, &op.outputs[0]) {
            Ok(t) => t,
            Err(e) => {
                return Err(e);
            }
        };
        let ys = output.shape();
        if !check_strides_ok(&ys) {
            return Err(
                GosonnxError::Error("stride arithmetic exceeds the machine range".to_owned()),
            );
        }
        let n = op.inputs.len();
        let mut records: Vec<InputRecord> = Vec::new();
        for i in 0..n
            invariant
                n == op.inputs@.len(),
                records.deep_view() == concat_records(op.inputs@.take(i as int), graph.tensor_map@),
                forall|j: int|
                    0 <= j < i ==> get_key(graph.tensor_map@, #[trigger] op.inputs@[j]@) is Some,
                forall|j: int|
                    0 <= j < i ==> strides_ok(
                        get_key(graph.tensor_map@, #[trigger] op.inputs@[j]@)->Some_0.spec_shape(),
                    ),
        {
            proof {
                assert(op.inputs@.take(i + 1).drop_last() =~= op.inputs@.take(i as int));
                assert(op.inputs@.take(i + 1).last() == op.inputs@[i as int]);
            }
            let t = match lookup_tensor(graph, &op.inputs[i]) {
                Ok(t) => t,
                Err(e) => {
                    return Err(e);
                }
            };
            let ts = t.shape();
            if !check_strides_ok(&ts) {
                return Err(
                    GosonnxError::Error("stride arithmetic exceeds the machine range".to_owned()),
                );
            }
            let rec = InputRecord {
                dtype: t.type_glsl(),
                n_dim: ts.len(),
                shape_csv: to_csv_str(&ts),
                strides_csv: Some(to_csv_str(&shape_to_strides(&ts))),
            };
            records.push(rec);
            assert(records.deep_view() =~= concat_records(
                op.inputs@.take(i + 1),
                graph.tensor_map@,
            ));
        }
        proof {
            assert(op.inputs@.take(n as int) =~= op.inputs@);
        }
        shader_templ.push_attr("concat_axis", TemplateValue::Int(self.axis));
        shader_templ.push_attr("n_inputs", TemplateValue::Uint(n));
        shader_templ.push_attr("input_info_arr", TemplateValue::Records(records));
        shader_templ.push_attr("output_n_dim", TemplateValue::Uint(ys.len()));
        shader_templ.push_attr("output_shape_csv", TemplateValue::Text(to_csv_str(&ys)));
        shader_templ.push_attr("output_dtype", TemplateValue::Text(output.type_glsl()));
        shader_templ.push_attr("output_binding_no", TemplateValue::Uint(n));
        shader_templ.push_attr(
            "output_strides_csv",
            TemplateValue::Text(to_csv_str(&shape_to_strides(&ys))),
        );
        Ok(())
    }

    /// One workgroup of 256 threads per 256 elements of the output.
    pub fn compute_workgroup_size(&self, op: &Op, graph: &Graph) -> (r: [u32; 3])
        requires
            out_ew_wg_ok(*op, graph.tensor_map@),
        ensures
            r@[0] == (shape_product(out_shape(*op, graph.tensor_map@)) + 255) / 256,
            r@[1] == 1u32,
            r@[2] == 1u32,
    {
        match output_elementwise_geometry(op, graph) {
            Ok(r) => r,
            Err(_) => {
                proof {
                    assert(false);
                }
                [0, 1, 1]
            }
        }
    }
}

} // verus!
