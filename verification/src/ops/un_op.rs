use vstd::prelude::*;

use crate::errors::GosonnxError;
use crate::graph::{Graph, Op};
use crate::ops::{compile_unary, elementwise_workgroup, ew_wg, ew_wg_ok, inserted_texts, unary_ok, ShaderTemplate, TValue};
use crate::store::get_key;

verus! {

/// The attribute record shared by unary elementwise operators: a list of
/// named scalar attributes in textual form.
#[derive(Debug)]
pub struct UnOpElementwise {
    pub attrs: Vec<(String, String)>,
}

impl UnOpElementwise {
    pub fn new(attrs: Vec<(String, String)>) -> (r: Self)
        ensures
            r.attrs == attrs,
    {
        UnOpElementwise { attrs }
    }
}


impl UnOpElementwise {
    /// Delegates to the shared unary elementwise compile with this
    /// record's attributes.
    pub fn compile(&self, op: &Op, shader_templ: &mut ShaderTemplate, graph: &Graph) -> (r: Result<
        (),
        GosonnxError,
    >)
        ensures
            (r is Ok) <==> unary_ok(*op, graph.tensor_map@),
            r is Err ==> *final(shader_templ) == *old(shader_templ),
            r is Ok ==> final(shader_templ).bindings() == inserted_texts(
                old(shader_templ).bindings(),
                self.attrs@,
            ).insert(
                "input_type"@,
                TValue::Text(get_key(graph.tensor_map@, op.inputs@[0]@)->Some_0.spec_type_glsl()),
            ).insert(
                "output_type"@,
                TValue::Text(get_key(graph.tensor_map@, op.outputs@[0]@)->Some_0.spec_type_glsl()),
            ),
            final(shader_templ).templates() == old(shader_templ).templates(),
            final(shader_templ).name() == old(shader_templ).name(),
    {
        compile_unary(op, &self.attrs, shader_templ, graph)
    }

    /// One workgroup of 256 threads per 256 elements of the first input.
    pub fn compute_workgroup_size(&self, op: &Op, graph: &Graph) -> (r: [u32; 3])
        requires
            ew_wg_ok(*op, graph.tensor_map@),
        ensures
            r@[0] == ew_wg(*op, graph.tensor_map@),
            r@[1] == 1u32,
            r@[2] == 1u32,
    {
        elementwise_workgroup(op, graph)
    }
}

} // verus!
