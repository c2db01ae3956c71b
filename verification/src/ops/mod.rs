use vstd::prelude::*;
use vstd::string::StringExecFns;

use crate::errors::GosonnxError;
use crate::graph::{Graph, Op, Tensor};
use crate::store::get_key;
use crate::utils::{csv_ints, i64_to_string, shape_product};

use self::activation_op::ActivationOp;
use self::average_pool::AveragePoolOp;
use self::batch_normalization::BatchNormalizationOp;
use self::bin_op::BinOpElementwise;
use self::clip::ClipOp;
use self::concat::ConcatOp;
use self::conv::ConvOp;
use self::conv_transpose::ConvTransposeOp;
use self::flatten::FlattenOp;
use self::gemm::GemmOp;
use self::global_average_pool::GlobalAveragePoolOp;
use self::maxpool::MaxPoolOp;
use self::resize::ResizeOp;

pub mod activation_op;
pub mod average_pool;
pub mod batch_normalization;
pub mod bin_op;
pub mod clip;
pub mod concat;
pub mod conv;
pub mod conv_transpose;
pub mod flatten;
pub mod gemm;
pub mod global_average_pool;
pub mod maxpool;
pub mod resize;
pub mod un_op;

verus! {

/// The closed set of operator kinds, each carrying its attribute record.
/// `Unknown` is a sentinel that is never executed.
#[derive(Debug)]
pub enum OpType {
    Add { attr: BinOpElementwise },
    AveragePool { attr: AveragePoolOp },
    BatchNormalization { attr: BatchNormalizationOp },
    Clip { attr: ClipOp },
    Concat { attr: ConcatOp },
    Conv { attr: ConvOp },
    ConvTranspose { attr: ConvTransposeOp },
    Div { attr: BinOpElementwise },
    Flatten { attr: FlattenOp },
    Gemm { attr: GemmOp },
    GlobalAveragePool { attr: GlobalAveragePoolOp },
    HardSigmoid { attr: ActivationOp },
    MaxPool { attr: MaxPoolOp },
    Mul { attr: BinOpElementwise },
    Relu { attr: ActivationOp },
    Resize { attr: ResizeOp },
    Sigmoid { attr: ActivationOp },
    Unknown,
}

impl OpType {
    /// The name of the kind: the string that selects the shader template
    /// file and tags fused activations.
    pub open spec fn kind_name(&self) -> Seq<char> {
        match self {
            OpType::Add { .. } => "Add"@,
            OpType::AveragePool { .. } => "AveragePool"@,
            OpType::BatchNormalization { .. } => "BatchNormalization"@,
            OpType::Clip { .. } => "Clip"@,
            OpType::Concat { .. } => "Concat"@,
            OpType::Conv { .. } => "Conv"@,
            OpType::ConvTranspose { .. } => "ConvTranspose"@,
            OpType::Div { .. } => "Div"@,
            OpType::Flatten { .. } => "Flatten"@,
            OpType::Gemm { .. } => "Gemm"@,
            OpType::GlobalAveragePool { .. } => "GlobalAveragePool"@,
            OpType::HardSigmoid { .. } => "HardSigmoid"@,
            OpType::MaxPool { .. } => "MaxPool"@,
            OpType::Mul { .. } => "Mul"@,
            OpType::Relu { .. } => "Relu"@,
            OpType::Resize { .. } => "Resize"@,
            OpType::Sigmoid { .. } => "Sigmoid"@,
            OpType::Unknown => "Unknown"@,
        }
    }

    /// Writes the kind's name.
    pub fn to_string(&self) -> (r: String)
        ensures
            r@ == self.kind_name(),
    {
        match self {
            OpType::Add { .. } => "Add".to_owned(),
            OpType::AveragePool { .. } => "AveragePool".to_owned(),
            OpType::BatchNormalization { .. } => "BatchNormalization".to_owned(),
            OpType::Clip { .. } => "Clip".to_owned(),
            OpType::Concat { .. } => "Concat".to_owned(),
            OpType::Conv { .. } => "Conv".to_owned(),
            OpType::ConvTranspose { .. } => "ConvTranspose".to_owned(),
            OpType::Div { .. } => "Div".to_owned(),
            OpType::Flatten { .. } => "Flatten".to_owned(),
            OpType::Gemm { .. } => "Gemm".to_owned(),
            OpType::GlobalAveragePool { .. } => "GlobalAveragePool".to_owned(),
            OpType::HardSigmoid { .. } => "HardSigmoid".to_owned(),
            OpType::MaxPool { .. } => "MaxPool".to_owned(),
            OpType::Mul { .. } => "Mul".to_owned(),
            OpType::Relu { .. } => "Relu".to_owned(),
            OpType::Resize { .. } => "Resize".to_owned(),
            OpType::Sigmoid { .. } => "Sigmoid".to_owned(),
            OpType::Unknown => "Unknown".to_owned(),
        }
    }

    /// Whether the kind is a pure activation: a candidate to be fused
    /// into its producer.
    pub open spec fn spec_is_activation(&self) -> bool {
        match self {
            OpType::Relu { .. } => true,
            OpType::Sigmoid { .. } => true,
            OpType::HardSigmoid { .. } => true,
            _ => false,
        }
    }

    /// Whether the kind's shader template supports an inlined activation
    /// tail, making it a valid fusion anchor.
    pub open spec fn spec_activable(&self) -> bool {
        match self {
            OpType::Gemm { .. } => true,
            OpType::Conv { .. } => true,
            OpType::ConvTranspose { .. } => true,
            OpType::BatchNormalization { .. } => true,
            _ => false,
        }
    }

    pub fn is_activation(&self) -> (r: bool)
        ensures
            r == self.spec_is_activation(),
    {
        match self {
            OpType::Relu { .. } => true,
            OpType::Sigmoid { .. } => true,
            OpType::HardSigmoid { .. } => true,
            _ => false,
        }
    }

    pub fn activable(&self) -> (r: bool)
        ensures
            r == self.spec_activable(),
    {
        match self {
            OpType::Gemm { .. } => true,
            OpType::Conv { .. } => true,
            OpType::ConvTranspose { .. } => true,
            OpType::BatchNormalization { .. } => true,
            _ => false,
        }
    }
}

/// The spec-level form of one template binding: the shape of the JSON
/// value the engine stores. An optional scalar that is present reads as
/// the scalar itself and an absent one as null, exactly as the engine
/// serializes them, so equal context states always carry equal models.
pub enum TValue {
    Bool(bool),
    Int(int),
    Text(Seq<char>),
    Null,
    Ints(Seq<int>),
    Records(Seq<RecordModel>),
}

/// The model of a record list. An empty record list and an empty number
/// list store as the same empty JSON array, so both read as the empty
/// number list.
pub open spec fn records_value(s: Seq<RecordModel>) -> TValue {
    if s.len() == 0 {
        TValue::Ints(Seq::empty())
    } else {
        TValue::Records(s)
    }
}

/// The spec-level form of one per-input record.
pub struct RecordModel {
    pub dtype: Seq<char>,
    pub n_dim: int,
    pub shape_csv: Seq<char>,
    pub strides_csv: Option<Seq<char>>,
}

/// One per-input record, for operators that bind a variable number of
/// inputs: the input's GLSL type, rank, and shape (and, where the shader
/// needs them, strides) in comma-separated form.
#[derive(Debug)]
pub struct InputRecord {
    pub dtype: String,
    pub n_dim: usize,
    pub shape_csv: String,
    pub strides_csv: Option<String>,
}

impl DeepView for InputRecord {
    type V = RecordModel;

    open spec fn deep_view(&self) -> RecordModel {
        RecordModel {
            dtype: self.dtype@,
            n_dim: self.n_dim as int,
            shape_csv: self.shape_csv@,
            strides_csv: match self.strides_csv {
                Some(s) => Some(s@),
                None => None,
            },
        }
    }
}

/// One value bound into a shader template context.
#[derive(Debug)]
pub enum TemplateValue {
    Bool(bool),
    Int(i64),
    Uint(usize),
    OptInt(Option<i64>),
    Text(String),
    OptText(Option<String>),
    Ints(Vec<i64>),
    Records(Vec<InputRecord>),
}

impl View for TemplateValue {
    type V = TValue;

    open spec fn view(&self) -> TValue {
        match self {
            TemplateValue::Bool(b) => TValue::Bool(*b),
            TemplateValue::Int(i) => TValue::Int(*i as int),
            TemplateValue::Uint(u) => TValue::Int(*u as int),
            TemplateValue::OptInt(o) => match o {
                Some(v) => TValue::Int(*v as int),
                None => TValue::Null,
            },
            TemplateValue::Text(s) => TValue::Text(s@),
            TemplateValue::OptText(o) => match o {
                Some(s) => TValue::Text(s@),
                None => TValue::Null,
            },
            TemplateValue::Ints(v) => TValue::Ints(v@.map_values(|x: i64| x as int)),
            TemplateValue::Records(v) => records_value(v.deep_view()),
        }
    }
}

#[verifier::external_type_specification]
#[verifier::external_body]
pub struct ExTera(tera::Tera);

#[verifier::external_type_specification]
#[verifier::external_body]
pub struct ExContext(tera::Context);

/// What the engine keeps of one template source: the parsed form. Two
/// sources that parse alike store as one engine state, so the model maps
/// text through the parse rather than keeping the text itself.
pub uninterp spec fn parsed_of(text: Seq<char>) -> Seq<char>;

/// The parsed templates an engine holds, by name.
pub uninterp spec fn tera_templates(t: tera::Tera) -> Map<Seq<char>, Seq<char>>;

/// Whether the engine accepts one more template: parsing the source and
/// rebuilding the inheritance chains succeed. Relies on
/// tera::Tera::add_raw_template being deterministic in the engine's
/// parsed templates and the new source.
pub uninterp spec fn add_ok(
    templates: Map<Seq<char>, Seq<char>>,
    name: Seq<char>,
    text: Seq<char>,
) -> bool;

/// The values a rendering context binds, by name.
pub uninterp spec fn context_data(c: tera::Context) -> Map<Seq<char>, TValue>;

/// Relies on tera::Tera::default: a fresh engine holds no templates.
#[verifier::external_body]
fn tera_new() -> (t: tera::Tera)
    ensures
        (tera_templates(t) == Map::<Seq<char>, Seq<char>>::empty()),
{
    tera::Tera::default()
}

/// Relies on tera::Tera::add_raw_template: it succeeds exactly when the
/// engine accepts the source — a deterministic check over the source and
/// the templates already held — and then stores the parsed template
/// under the given name; on failure the message is returned and nothing
/// is promised of the engine.
#[verifier::external_body]
fn tera_add_template(t: &mut tera::Tera, name: &str, content: &str) -> (r: Result<(), String>)
    ensures
        (r is Ok) == add_ok(tera_templates(*old(t)), name@, content@),
        r is Ok ==> tera_templates(*final(t)) == tera_templates(*old(t)).insert(
            name@,
            parsed_of(content@),
        ),
{
    match t.add_raw_template(name, content) {
        Ok(()) => Ok(()),
        Err(e) => Err(e.to_string()),
    }
}

/// Relies on tera::Context::new: a fresh context binds nothing.
#[verifier::external_body]
fn context_new() -> (c: tera::Context)
    ensures
        (context_data(c) == Map::<Seq<char>, TValue>::empty()),
{
    tera::Context::new()
}

/// Relies on tera::Context::insert: binds one plain value under the key.
/// Serialization of these value shapes cannot fail.
#[verifier::external_body]
fn context_insert_plain(c: &mut tera::Context, key: &str, val: &TemplateValue)
    requires
        !(val is Records),
    ensures
        context_data(*final(c)) == context_data(*old(c)).insert(key@, val@),
{
    match val {
        TemplateValue::Bool(b) => c.insert(key, b),
        TemplateValue::Int(i) => c.insert(key, i),
        TemplateValue::Uint(u) => c.insert(key, u),
        TemplateValue::OptInt(o) => c.insert(key, o),
        TemplateValue::Text(s) => c.insert(key, s),
        TemplateValue::OptText(o) => c.insert(key, o),
        TemplateValue::Ints(v) => c.insert(key, v),
        TemplateValue::Records(_) => {}
    }
}

/// Relies on tera::Context::insert: binds an array of per-input records,
/// one object per record, leaving out an absent strides entry.
#[verifier::external_body]
fn context_insert_records(c: &mut tera::Context, key: &str, recs: &Vec<InputRecord>)
    ensures
        context_data(*final(c)) == context_data(*old(c)).insert(
            key@,
            records_value(recs.deep_view()),
        ),
{
    let arr: Vec<tera::Value> = recs.iter().map(
        |r: &InputRecord|
            {
                let mut m = tera::Map::new();
                m.insert("dtype".to_string(), tera::Value::String(r.dtype.clone()));
                m.insert("n_dim".to_string(), tera::Value::from(r.n_dim as u64));
                m.insert("shape_csv".to_string(), tera::Value::String(r.shape_csv.clone()));
                if let Some(sc) = &r.strides_csv {
                    m.insert("strides_csv".to_string(), tera::Value::String(sc.clone()));
                }
                tera::Value::Object(m)
            },
    ).collect();
    c.insert(key, &arr)
}

/// Relies on tera::Tera::render. The engine's built-in functions may read
/// the clock or draw random numbers, so nothing is assumed of the text it
/// produces; a failure carries the engine's message.
#[verifier::external_body]
fn tera_render(t: &tera::Tera, name: &str, c: &tera::Context) -> (r: Result<String, String>) {
    match t.render(name, c) {
        Ok(s) => Ok(s),
        Err(e) => Err(e.to_string()),
    }
}

/// Whether the engine accepts the template set of one operator: the two
/// shared elementwise bases, then the operator's own template, each
/// against the templates added before it.
pub open spec fn templates_accepted(
    tpl_name: Seq<char>,
    tpl: Seq<char>,
    unary: Seq<char>,
    binary: Seq<char>,
) -> bool {
    let m0 = Map::<Seq<char>, Seq<char>>::empty();
    let m1 = m0.insert("_unary_elementwise"@, parsed_of(unary));
    let m2 = m1.insert("_binary_elementwise"@, parsed_of(binary));
    &&& add_ok(m0, "_unary_elementwise"@, unary)
    &&& add_ok(m1, "_binary_elementwise"@, binary)
    &&& add_ok(m2, tpl_name, tpl)
}

/// A shader template being materialized for one operator: the engine with
/// the two shared elementwise base templates and the operator's own
/// template, plus the variable bindings the compile step pushes.
pub struct ShaderTemplate {
    tera: tera::Tera,
    ctx: tera::Context,
    template_name: String,
}

impl ShaderTemplate {
    /// The template texts the engine holds, by name.
    pub closed spec fn templates(&self) -> Map<Seq<char>, Seq<char>> {
        tera_templates(self.tera)
    }

    /// The variable bindings pushed so far, by name.
    pub closed spec fn bindings(&self) -> Map<Seq<char>, TValue> {
        context_data(self.ctx)
    }

    /// The name of the template that will be rendered.
    pub closed spec fn name(&self) -> Seq<char> {
        self.template_name@
    }

    /// Builds the template set for one operator: the two shared
    /// elementwise bases plus the operator's own template, with an empty
    /// binding context. It succeeds exactly when the engine accepts all
    /// three sources.
    pub fn new(template_name: &str, template_str: &str, unary_source: &str, binary_source: &str)
        -> (r: Result<Self, GosonnxError>)
        ensures
            (r is Ok) <==> templates_accepted(
                template_name@,
                template_str@,
                unary_source@,
                binary_source@,
            ),
            r is Ok ==> {
                let t = r->Ok_0;
                &&& t.name() == template_name@
                &&& t.bindings() == Map::<Seq<char>, TValue>::empty()
                &&& t.templates() == Map::<Seq<char>, Seq<char>>::empty().insert(
                    "_unary_elementwise"@,
                    parsed_of(unary_source@),
                ).insert("_binary_elementwise"@, parsed_of(binary_source@)).insert(
                    template_name@,
                    parsed_of(template_str@),
                )
            },
            r is Err ==> r->Err_0 is Error,
    {
        let mut engine = tera_new();
        match tera_add_template(&mut engine, "_unary_elementwise", unary_source) {
            Ok(()) => {}
            Err(e) => {
                return Err(GosonnxError::Error(e));
            }
        }
        match tera_add_template(&mut engine, "_binary_elementwise", binary_source) {
            Ok(()) => {}
            Err(e) => {
                return Err(GosonnxError::Error(e));
            }
        }
        match tera_add_template(&mut engine, template_name, template_str) {
            Ok(()) => {}
            Err(e) => {
                return Err(GosonnxError::Error(e));
            }
        }
        Ok(ShaderTemplate { tera: engine, ctx: context_new(), template_name: template_name.to_owned() })
    }

    /// Binds `attr_val` under `attr_name`; a later push under the same
    /// name overwrites.
    pub fn push_attr(&mut self, attr_name: &str, attr_val: TemplateValue)
        ensures
            final(self).bindings() == old(self).bindings().insert(attr_name@, attr_val@),
            final(self).templates() == old(self).templates(),
            final(self).name() == old(self).name(),
    {
        match &attr_val {
            TemplateValue::Records(recs) => context_insert_records(&mut self.ctx, attr_name, recs),
            _ => context_insert_plain(&mut self.ctx, attr_name, &attr_val),
        }
    }

    /// Adds one more named template to the engine; the engine accepts or
    /// refuses it as a function of the source and what it already holds.
    pub fn add_template(&mut self, name: &str, content: &str) -> (r: Result<(), String>)
        ensures
            (r is Ok) == add_ok(old(self).templates(), name@, content@),
            r is Ok ==> final(self).templates() == old(self).templates().insert(
                name@,
                parsed_of(content@),
            ),
            final(self).bindings() == old(self).bindings(),
            final(self).name() == old(self).name(),
    {
        tera_add_template(&mut self.tera, name, content)
    }

    /// Renders the operator's template against the bound context; a
    /// failure is reported as a shader compile error carrying the
    /// engine's message.
    pub fn compile(&self) -> (r: Result<String, GosonnxError>)
        ensures
            r is Err ==> r->Err_0 is ShaderCompileError,
    {
        match tera_render(&self.tera, self.template_name.as_str(), &self.ctx) {
            Ok(s) => Ok(s),
            Err(m) => Err(GosonnxError::ShaderCompileError(m)),
        }
    }
}

/// The tensor registered under `name`, or a `TensorNotFound` failure.
pub fn lookup_tensor<'a>(graph: &'a Graph, name: &String) -> (r: Result<&'a Tensor, GosonnxError>)
    ensures
        match r {
            Ok(t) => get_key(graph.tensor_map@, name@) == Some(*t),
            Err(e) => get_key(graph.tensor_map@, name@) is None && e is TensorNotFound,
        },
{
    match graph.tensor_map.get(name.as_str()) {
        Some(t) => Ok(t),
        None => Err(GosonnxError::TensorNotFound(name.clone())),
    }
}

/// The number of workgroups covering `n` items at `per` items per group.
pub fn ceil_div_u32(n: usize, per: usize) -> (r: u32)
    requires
        per > 0,
        (n + per - 1) / (per as int) <= u32::MAX,
    ensures
        r as int == (n + per - 1) / (per as int),
{
    let q = n / per;
    let m = n % per;
    proof {
        let nn = n as int;
        let pp = per as int;
        assert((nn + pp - 1) / pp == nn / pp + (if nn % pp == 0 {
            0int
        } else {
            1int
        })) by (nonlinear_arith)
            requires
                pp > 0,
                nn >= 0,
        ;
    }
    if m == 0 {
        q as u32
    } else {
        (q + 1) as u32
    }
}

/// The number of workgroups covering a dimension of size `d` at `per`
/// threads per group.
pub fn ceil_div_dim(d: i64, per: i64) -> (r: u32)
    requires
        0 <= d,
        0 < per,
        (d + per - 1) / (per as int) <= u32::MAX,
    ensures
        r as int == (d + per - 1) / (per as int),
{
    let q = d / per;
    let m = d % per;
    proof {
        let nn = d as int;
        let pp = per as int;
        assert((nn + pp - 1) / pp == nn / pp + (if nn % pp == 0 {
            0int
        } else {
            1int
        })) by (nonlinear_arith)
            requires
                pp > 0,
                nn >= 0,
        ;
    }
    if m == 0 {
        q as u32
    } else {
        (q + 1) as u32
    }
}

/// `m` with the pairs of `attrs` bound in order as text values.
pub open spec fn inserted_texts(m: Map<Seq<char>, TValue>, attrs: Seq<(String, String)>) -> Map<
    Seq<char>,
    TValue,
>
    decreases attrs.len(),
{
    if attrs.len() == 0 {
        m
    } else {
        inserted_texts(m, attrs.drop_last()).insert(
            attrs.last().0@,
            TValue::Text(attrs.last().1@),
        )
    }
}

/// What a unary elementwise compile needs: an input and an output tensor
/// registered under the operator's first names.
pub open spec fn unary_ok(op: Op, tensors: Seq<(Seq<char>, Tensor)>) -> bool {
    &&& op.inputs@.len() >= 1
    &&& op.outputs@.len() >= 1
    &&& get_key(tensors, op.inputs@[0]@) is Some
    &&& get_key(tensors, op.outputs@[0]@) is Some
}

/// Binds a unary elementwise operator: the kind's own attributes in
/// order, then the input and output GLSL element types. The context is
/// only written on success.
pub fn compile_unary(
    op: &Op,
    attrs: &Vec<(String, String)>,
    shader_templ: &mut ShaderTemplate,
    graph: &Graph,
) -> (r: Result<(), GosonnxError>)
    ensures
        (r is Ok) <==> unary_ok(*op, graph.tensor_map@),
        r is Err ==> *final(shader_templ) == *old(shader_templ),
        r is Ok ==> final(shader_templ).bindings() == inserted_texts(
            old(shader_templ).bindings(),
            attrs@,
        ).insert(
            "input_type"@,
            TValue::Text(get_key(graph.tensor_map@, op.inputs@[0]@)->Some_0.spec_type_glsl()),
        ).insert(
            "output_type"@,
            TValue::Text(get_key(graph.tensor_map@, op.outputs@[0]@)->Some_0.spec_type_glsl()),
        ),
        final(shader_templ).templates() == old(shader_templ).templates(),
        final(shader_templ).name() == old(shader_templ).name(),
{
    if op.inputs.len() < 1 {
        return Err(GosonnxError::InvalidInputNo { expected: 1, found: op.inputs.len() });
    }
    if op.outputs.len() < 1 {
        return Err(GosonnxError::Error("a unary operator needs an output".to_owned()));
    }
    let input = match lookup_tensor(graph, &op.inputs[0]) {
        Ok(t) => t,
        Err(e) => {
            return Err(e);
        }
    };
    let output = match lookup_tensor(graph, &op.outputs[0]) {
        Ok(t) => t,
        Err(e) => {
            return Err(e);
        }
    };
    let n = attrs.len();
    for i in 0..n
        invariant
            n == attrs@.len(),
            shader_templ.bindings() == inserted_texts(old(shader_templ).bindings(), attrs@.take(
                i as int,
            )),
            shader_templ.templates() == old(shader_templ).templates(),
            shader_templ.name() == old(shader_templ).name(),
    {
        proof {
            assert(attrs@.take(i + 1).drop_last() =~= attrs@.take(i as int));
        }
        let k = attrs[i].0.clone();
        let v = attrs[i].1.clone();
        shader_templ.push_attr(k.as_str(), TemplateValue::Text(v));
    }
    proof {
        assert(attrs@.take(n as int) =~= attrs@);
    }
    shader_templ.push_attr("input_type", TemplateValue::Text(input.type_glsl()));
    shader_templ.push_attr("output_type", TemplateValue::Text(output.type_glsl()));
    Ok(())
}

/// One thread per element of the operator's first input, 256 to a
/// workgroup: the machine bound every elementwise launch needs.
pub open spec fn ew_wg_ok(op: Op, tensors: Seq<(Seq<char>, Tensor)>) -> bool {
    &&& op.inputs@.len() >= 1
    &&& get_key(tensors, op.inputs@[0]@) is Some
    &&& {
        let s = get_key(tensors, op.inputs@[0]@)->Some_0.spec_shape();
        &&& (forall|j: int| 0 <= j < s.len() ==> s[j] >= 0)
        &&& shape_product(s) <= usize::MAX
        &&& (shape_product(s) + 255) / 256 <= u32::MAX
    }
}

/// The launch geometry of an elementwise operator over its first input.
pub open spec fn ew_wg(op: Op, tensors: Seq<(Seq<char>, Tensor)>) -> int {
    (shape_product(get_key(tensors, op.inputs@[0]@)->Some_0.spec_shape()) + 255) / 256
}

/// One workgroup of 256 threads per 256 elements of the first input.
pub fn elementwise_workgroup(op: &Op, graph: &Graph) -> (r: [u32; 3])
    requires
        ew_wg_ok(*op, graph.tensor_map@),
    ensures
        r@[0] == ew_wg(*op, graph.tensor_map@),
        r@[1] == 1u32,
        r@[2] == 1u32,
{
    let t = match lookup_tensor(graph, &op.inputs[0]) {
        Ok(t) => t,
        Err(_) => {
            proof {
                assert(false);
            }
            return [0, 1, 1];
        }
    };
    let shape = t.shape();
    let numel = match crate::utils::shape_element_count(&shape) {
        Ok(n) => n,
        Err(_) => {
            proof {
                assert(false);
            }
            return [0, 1, 1];
        }
    };
    let wx = ceil_div_u32(numel, 256);
    [wx, 1, 1]
}

/// The first output's shape, as registered in the tensor store.
pub open spec fn out_shape(op: Op, tensors: Seq<(Seq<char>, Tensor)>) -> Seq<i64> {
    get_key(tensors, op.outputs@[0]@)->Some_0.spec_shape()
}

/// What a two-axis launch needs: a registered first output whose shape
/// reaches both axes with non-negative sizes, and group counts that fit
/// the device's 32-bit limits.
pub open spec fn pair_wg_ok(
    op: Op,
    tensors: Seq<(Seq<char>, Tensor)>,
    ix: int,
    dx: int,
    iy: int,
    dy: int,
) -> bool {
    &&& op.outputs@.len() >= 1
    &&& get_key(tensors, op.outputs@[0]@) is Some
    &&& {
        let s = out_shape(op, tensors);
        &&& s.len() > ix
        &&& s.len() > iy
        &&& s[ix] >= 0
        &&& s[iy] >= 0
        &&& (s[ix] + dx - 1) / dx <= u32::MAX
        &&& (s[iy] + dy - 1) / dy <= u32::MAX
    }
}

/// A launch covering two output axes, one workgroup per `dx` × `dy`
/// block.
pub fn pair_geometry(op: &Op, graph: &Graph, ix: usize, dx: i64, iy: usize, dy: i64) -> (r: Result<
    [u32; 3],
    GosonnxError,
>)
    requires
        1 < dx,
        1 < dy,
    ensures
        (r is Ok) <==> pair_wg_ok(*op, graph.tensor_map@, ix as int, dx as int, iy as int, dy as int),
        r is Ok ==> {
            let s = out_shape(*op, graph.tensor_map@);
            &&& r->Ok_0@[0] == (s[ix as int] + dx - 1) / (dx as int)
            &&& r->Ok_0@[1] == (s[iy as int] + dy - 1) / (dy as int)
            &&& r->Ok_0@[2] == 1u32
        },
        r is Err ==> r->Err_0 is Error,
{
    if op.outputs.len() < 1 {
        return Err(GosonnxError::Error("operator has no output".to_owned()));
    }
    let out = match lookup_tensor(graph, &op.outputs[0]) {
        Ok(t) => t,
        Err(_) => {
            return Err(GosonnxError::Error("output tensor was not found".to_owned()));
        }
    };
    let s = out.shape();
    if s.len() <= ix || s.len() <= iy {
        return Err(GosonnxError::Error("output rank is too small for the launch".to_owned()));
    }
    if s[ix] < 0 || s[iy] < 0 {
        return Err(GosonnxError::Error("output has a negative dimension size".to_owned()));
    }
    proof {
        let a = s@[ix as int] as int;
        let b = dx as int;
        let c = s@[iy as int] as int;
        let d = dy as int;
        assert(((a + b - 1) / b == a / b + (if a % b == 0 {
            0int
        } else {
            1int
        })) && ((c + d - 1) / d == c / d + (if c % d == 0 {
            0int
        } else {
            1int
        })) && a / b + 1 <= i64::MAX && c / d + 1 <= i64::MAX) by (nonlinear_arith)
            requires
                b > 1,
                0 <= a <= i64::MAX,
                d > 1,
                0 <= c <= i64::MAX,
        ;
    }
    let qx = (s[ix] / dx) + (if s[ix] % dx == 0 {
        0
    } else {
        1
    });
    let qy = (s[iy] / dy) + (if s[iy] % dy == 0 {
        0
    } else {
        1
    });
    if qx > u32::MAX as i64 || qy > u32::MAX as i64 {
        return Err(GosonnxError::Error("launch exceeds the device's group limit".to_owned()));
    }
    Ok([qx as u32, qy as u32, 1])
}

/// What a convolution-style launch needs: a rank-4 output with
/// non-negative sizes, spatial group counts and the batch-channel product
/// within the device's 32-bit limits.
pub open spec fn conv_wg_ok(op: Op, tensors: Seq<(Seq<char>, Tensor)>) -> bool {
    &&& op.outputs@.len() >= 1
    &&& get_key(tensors, op.outputs@[0]@) is Some
    &&& {
        let s = out_shape(op, tensors);
        &&& s.len() >= 4
        &&& (forall|j: int| 0 <= j < 4 ==> s[j] >= 0)
        &&& (s[3] + 15) / 16 <= u32::MAX
        &&& (s[2] + 15) / 16 <= u32::MAX
        &&& s[0] <= u32::MAX
        &&& s[1] <= u32::MAX
        &&& s[0] * s[1] <= u32::MAX
    }
}

/// One workgroup per 16×16 spatial block, one layer per batch-channel.
pub fn conv_geometry(op: &Op, graph: &Graph) -> (r: Result<[u32; 3], GosonnxError>)
    ensures
        (r is Ok) <==> conv_wg_ok(*op, graph.tensor_map@),
        r is Ok ==> {
            let s = out_shape(*op, graph.tensor_map@);
            &&& r->Ok_0@[0] == (s[3] + 15) / 16
            &&& r->Ok_0@[1] == (s[2] + 15) / 16
            &&& r->Ok_0@[2] == s[0] * s[1]
        },
        r is Err ==> r->Err_0 is Error,
{
    let base = match pair_geometry(op, graph, 3, 16, 2, 16) {
        Ok(b) => b,
        Err(e) => {
            return Err(e);
        }
    };
    let out = match lookup_tensor(graph, &op.outputs[0]) {
        Ok(t) => t,
        Err(_) => {
            proof {
                assert(false);
            }
            return Err(GosonnxError::Error("output tensor was not found".to_owned()));
        }
    };
    let s = out.shape();
    if s[0] < 0 || s[1] < 0 {
        return Err(GosonnxError::Error("output has a negative dimension size".to_owned()));
    }
    if s[0] > u32::MAX as i64 || s[1] > u32::MAX as i64 {
        return Err(GosonnxError::Error("launch exceeds the device's group limit".to_owned()));
    }
    proof {
        let a = s@[0] as int;
        let b = s@[1] as int;
        assert(a * b <= (u32::MAX as int) * (u32::MAX as int) && a * b >= 0) by (nonlinear_arith)
            requires
                0 <= a <= u32::MAX as int,
                0 <= b <= u32::MAX as int,
        ;
    }
    let z128 = (s[0] as i128) * (s[1] as i128);
    if z128 > u32::MAX as i128 {
        return Err(GosonnxError::Error("launch exceeds the device's group limit".to_owned()));
    }
    Ok([base[0], base[1], z128 as u32])
}

/// What a windowed-pool launch needs: a rank-4 output with non-negative
/// sizes and group counts within the device's 32-bit limits.
pub open spec fn pool_wg_ok(op: Op, tensors: Seq<(Seq<char>, Tensor)>) -> bool {
    &&& op.outputs@.len() >= 1
    &&& get_key(tensors, op.outputs@[0]@) is Some
    &&& {
        let s = out_shape(op, tensors);
        &&& s.len() >= 4
        &&& (forall|j: int| 0 <= j < 4 ==> s[j] >= 0)
        &&& (s[3] + 15) / 16 <= u32::MAX
        &&& (s[2] + 3) / 4 <= u32::MAX
        &&& s[0] * s[1] <= i64::MAX
        &&& (s[0] * s[1] + 3) / 4 <= u32::MAX
    }
}

/// One workgroup per 16×4 spatial block and 4 batch-channel layers.
pub fn pool_geometry(op: &Op, graph: &Graph) -> (r: Result<[u32; 3], GosonnxError>)
    ensures
        (r is Ok) <==> pool_wg_ok(*op, graph.tensor_map@),
        r is Ok ==> {
            let s = out_shape(*op, graph.tensor_map@);
            &&& r->Ok_0@[0] == (s[3] + 15) / 16
            &&& r->Ok_0@[1] == (s[2] + 3) / 4
            &&& r->Ok_0@[2] == (s[0] * s[1] + 3) / 4
        },
        r is Err ==> r->Err_0 is Error,
{
    let base = match pair_geometry(op, graph, 3, 16, 2, 4) {
        Ok(b) => b,
        Err(e) => {
            return Err(e);
        }
    };
    let out = match lookup_tensor(graph, &op.outputs[0]) {
        Ok(t) => t,
        Err(_) => {
            proof {
                assert(false);
            }
            return Err(GosonnxError::Error("output tensor was not found".to_owned()));
        }
    };
    let s = out.shape();
    if s[0] < 0 || s[1] < 0 {
        return Err(GosonnxError::Error("output has a negative dimension size".to_owned()));
    }
    proof {
        let a = s@[0] as int;
        let b = s@[1] as int;
        assert(a * b <= (i64::MAX as int) * (i64::MAX as int) && a * b >= 0) by (nonlinear_arith)
            requires
                0 <= a <= i64::MAX as int,
                0 <= b <= i64::MAX as int,
        ;
    }
    let z128 = (s[0] as i128) * (s[1] as i128);
    if z128 > i64::MAX as i128 {
        return Err(GosonnxError::Error("launch exceeds the device's group limit".to_owned()));
    }
    let nc = z128 as i64;
    let qz = (nc / 4) + (if nc % 4 == 0 {
        0
    } else {
        1
    });
    proof {
        let a = nc as int;
        assert((a + 3) / 4 == a / 4 + (if a % 4 == 0 {
            0int
        } else {
            1int
        })) by (nonlinear_arith)
            requires
                a >= 0,
        ;
    }
    if qz > u32::MAX as i64 {
        return Err(GosonnxError::Error("launch exceeds the device's group limit".to_owned()));
    }
    Ok([base[0], base[1], qz as u32])
}

/// What the resize launch needs: a rank-4 output with non-negative sizes
/// and group counts within the device's 32-bit limits.
pub open spec fn resize_wg_ok(op: Op, tensors: Seq<(Seq<char>, Tensor)>) -> bool {
    &&& op.outputs@.len() >= 1
    &&& get_key(tensors, op.outputs@[0]@) is Some
    &&& {
        let s = out_shape(op, tensors);
        &&& s.len() >= 4
        &&& (forall|j: int| 0 <= j < 4 ==> s[j] >= 0)
        &&& (s[3] + 15) / 16 <= u32::MAX
        &&& s[2] * s[1] <= i64::MAX
        &&& (s[2] * s[1] + 15) / 16 <= u32::MAX
    }
}

/// One workgroup per 16 output columns and 16 rows of the folded
/// height-channel extent.
pub fn resize_geometry(op: &Op, graph: &Graph) -> (r: Result<[u32; 3], GosonnxError>)
    ensures
        (r is Ok) <==> resize_wg_ok(*op, graph.tensor_map@),
        r is Ok ==> {
            let s = out_shape(*op, graph.tensor_map@);
            &&& r->Ok_0@[0] == (s[3] + 15) / 16
            &&& r->Ok_0@[1] == (s[2] * s[1] + 15) / 16
            &&& r->Ok_0@[2] == 1u32
        },
        r is Err ==> r->Err_0 is Error,
{
    if op.outputs.len() < 1 {
        return Err(GosonnxError::Error("operator has no output".to_owned()));
    }
    let out = match lookup_tensor(graph, &op.outputs[0]) {
        Ok(t) => t,
        Err(_) => {
            return Err(GosonnxError::Error("output tensor was not found".to_owned()));
        }
    };
    let s = out.shape();
    if s.len() < 4 {
        return Err(GosonnxError::Error("output rank is too small for the launch".to_owned()));
    }
    if s[0] < 0 || s[1] < 0 || s[2] < 0 || s[3] < 0 {
        return Err(GosonnxError::Error("output has a negative dimension size".to_owned()));
    }
    proof {
        let a = s@[3] as int;
        assert(((a + 15) / 16 == a / 16 + (if a % 16 == 0 {
            0int
        } else {
            1int
        })) && a / 16 + 1 <= i64::MAX) by (nonlinear_arith)
            requires
                0 <= a <= i64::MAX,
        ;
    }
    let qx = (s[3] / 16) + (if s[3] % 16 == 0 {
        0
    } else {
        1
    });
    if qx > u32::MAX as i64 {
        return Err(GosonnxError::Error("launch exceeds the device's group limit".to_owned()));
    }
    proof {
        let a = s@[2] as int;
        let b = s@[1] as int;
        assert(a * b <= (i64::MAX as int) * (i64::MAX as int) && a * b >= 0) by (nonlinear_arith)
            requires
                0 <= a <= i64::MAX as int,
                0 <= b <= i64::MAX as int,
        ;
    }
    let hc128 = (s[2] as i128) * (s[1] as i128);
    if hc128 > i64::MAX as i128 {
        return Err(GosonnxError::Error("launch exceeds the device's group limit".to_owned()));
    }
    let hc = hc128 as i64;
    proof {
        let a = hc as int;
        assert(((a + 15) / 16 == a / 16 + (if a % 16 == 0 {
            0int
        } else {
            1int
        })) && a / 16 + 1 <= i64::MAX) by (nonlinear_arith)
            requires
                0 <= a <= i64::MAX,
        ;
    }
    let qy = (hc / 16) + (if hc % 16 == 0 {
        0
    } else {
        1
    });
    if qy > u32::MAX as i64 {
        return Err(GosonnxError::Error("launch exceeds the device's group limit".to_owned()));
    }
    Ok([qx as u32, qy as u32, 1])
}

/// One workgroup of 256 threads per 256 elements of the first input.
pub fn input_elementwise_geometry(op: &Op, graph: &Graph) -> (r: Result<[u32; 3], GosonnxError>)
    ensures
        (r is Ok) <==> ew_wg_ok(*op, graph.tensor_map@),
        r is Ok ==> {
            &&& r->Ok_0@[0] == ew_wg(*op, graph.tensor_map@)
            &&& r->Ok_0@[1] == 1u32
            &&& r->Ok_0@[2] == 1u32
        },
        r is Err ==> r->Err_0 is Error,
{
    if op.inputs.len() < 1 {
        return Err(GosonnxError::Error("operator has no input".to_owned()));
    }
    let t = match lookup_tensor(graph, &op.inputs[0]) {
        Ok(t) => t,
        Err(_) => {
            return Err(GosonnxError::Error("input tensor was not found".to_owned()));
        }
    };
    let shape = t.shape();
    let numel = match crate::utils::shape_element_count(&shape) {
        Ok(n) => n,
        Err(m) => {
            return Err(GosonnxError::Error(m));
        }
    };
    proof {
        let a = numel as int;
        assert(((a + 255) / 256 == a / 256 + (if a % 256 == 0 {
            0int
        } else {
            1int
        })) && a / 256 + 1 <= usize::MAX) by (nonlinear_arith)
            requires
                0 <= a <= usize::MAX,
        ;
    }
    let q = (numel / 256) + (if numel % 256 == 0 {
        0
    } else {
        1
    });
    if q > u32::MAX as usize {
        return Err(GosonnxError::Error("launch exceeds the device's group limit".to_owned()));
    }
    Ok([q as u32, 1, 1])
}

/// One workgroup of 256 threads per 256 elements of the first output.
pub open spec fn out_ew_wg_ok(op: Op, tensors: Seq<(Seq<char>, Tensor)>) -> bool {
    &&& op.outputs@.len() >= 1
    &&& get_key(tensors, op.outputs@[0]@) is Some
    &&& {
        let s = out_shape(op, tensors);
        &&& (forall|j: int| 0 <= j < s.len() ==> s[j] >= 0)
        &&& shape_product(s) <= usize::MAX
        &&& (shape_product(s) + 255) / 256 <= u32::MAX
    }
}

/// One workgroup of 256 threads per 256 elements of the first output.
pub fn output_elementwise_geometry(op: &Op, graph: &Graph) -> (r: Result<[u32; 3], GosonnxError>)
    ensures
        (r is Ok) <==> out_ew_wg_ok(*op, graph.tensor_map@),
        r is Ok ==> {
            &&& r->Ok_0@[0] == (shape_product(out_shape(*op, graph.tensor_map@)) + 255) / 256
            &&& r->Ok_0@[1] == 1u32
            &&& r->Ok_0@[2] == 1u32
        },
        r is Err ==> r->Err_0 is Error,
{
    if op.outputs.len() < 1 {
        return Err(GosonnxError::Error("operator has no output".to_owned()));
    }
    let out = match lookup_tensor(graph, &op.outputs[0]) {
        Ok(t) => t,
        Err(_) => {
            return Err(GosonnxError::Error("output tensor was not found".to_owned()));
        }
    };
    let shape = out.shape();
    let numel = match crate::utils::shape_element_count(&shape) {
        Ok(n) => n,
        Err(m) => {
            return Err(GosonnxError::Error(m));
        }
    };
    proof {
        let a = numel as int;
        assert(((a + 255) / 256 == a / 256 + (if a % 256 == 0 {
            0int
        } else {
            1int
        })) && a / 256 + 1 <= usize::MAX) by (nonlinear_arith)
            requires
                0 <= a <= usize::MAX,
        ;
    }
    let q = (numel / 256) + (if numel % 256 == 0 {
        0
    } else {
        1
    });
    if q > u32::MAX as usize {
        return Err(GosonnxError::Error("launch exceeds the device's group limit".to_owned()));
    }
    Ok([q as u32, 1, 1])
}

/// The comma-separated decimal forms of the values, in order.
pub fn to_csv_str(vals: &Vec<i64>) -> (r: String)
    ensures
        r@ == csv_ints(vals@),
{
    proof {
        reveal_strlit(",");
    }
    let mut r = String::new();
    let n = vals.len();
    for i in 0..n
        invariant
            n == vals@.len(),
            r@ == csv_ints(vals@.take(i as int)),
    {
        proof {
            reveal_strlit(",");
            assert(vals@.take(i + 1).drop_last() =~= vals@.take(i as int));
        }
        if i > 0 {
            r.append(",");
        }
        let d = i64_to_string(vals[i]);
        r.append(d.as_str());
        assert(r@ =~= csv_ints(vals@.take(i + 1)));
    }
    assert(vals@.take(n as int) =~= vals@);
    r
}

/// The fusion extras of an operator, or nothing.
pub open spec fn extra_pairs(op: Op) -> Seq<(String, String)> {
    match op.extra_attr {
        Some(v) => v@,
        None => Seq::empty(),
    }
}

/// Pushes the operator's fusion extras into the template context.
fn merge_extra_attrs(op: &Op, shader_templ: &mut ShaderTemplate)
    ensures
        final(shader_templ).bindings() == inserted_texts(
            old(shader_templ).bindings(),
            extra_pairs(*op),
        ),
        final(shader_templ).templates() == old(shader_templ).templates(),
        final(shader_templ).name() == old(shader_templ).name(),
{
    match &op.extra_attr {
        None => {}
        Some(extras) => {
            let n = extras.len();
            for i in 0..n
                invariant
                    n == extras@.len(),
                    shader_templ.bindings() == inserted_texts(
                        old(shader_templ).bindings(),
                        extras@.take(i as int),
                    ),
                    shader_templ.templates() == old(shader_templ).templates(),
                    shader_templ.name() == old(shader_templ).name(),
            {
                proof {
                    assert(extras@.take(i + 1).drop_last() =~= extras@.take(i as int));
                }
                let k = extras[i].0.clone();
                let v = extras[i].1.clone();
                shader_templ.push_attr(k.as_str(), TemplateValue::Text(v));
            }
            proof {
                assert(extras@.take(n as int) =~= extras@);
            }
        }
    }
}

impl OpType {
    /// Whether this kind's compile step succeeds for the operator: the
    /// per-kind success condition, dispatched on the kind.
    pub open spec fn spec_compile_ok(&self, op: Op, tensors: Seq<(Seq<char>, Tensor)>) -> bool {
        match self {
            OpType::Add { .. } => crate::ops::bin_op::binary_ok(op, tensors),
            OpType::Div { .. } => crate::ops::bin_op::binary_ok(op, tensors),
            OpType::Mul { .. } => crate::ops::bin_op::binary_ok(op, tensors),
            OpType::Relu { .. } => unary_ok(op, tensors),
            OpType::Sigmoid { .. } => unary_ok(op, tensors),
            OpType::HardSigmoid { .. } => unary_ok(op, tensors),
            OpType::AveragePool { attr } => attr.compile_ok(op, tensors),
            OpType::BatchNormalization { attr } => attr.compile_ok(op, tensors),
            OpType::Clip { attr } => attr.compile_ok(op, tensors),
            OpType::Concat { attr } => attr.compile_ok(op, tensors),
            OpType::Conv { attr } => attr.compile_ok(op, tensors),
            OpType::ConvTranspose { attr } => attr.compile_ok(op, tensors),
            OpType::Flatten { attr } => attr.compile_ok(op, tensors),
            OpType::Gemm { attr } => attr.compile_ok(op, tensors),
            OpType::GlobalAveragePool { attr } => attr.compile_ok(op, tensors),
            OpType::MaxPool { attr } => attr.compile_ok(op, tensors),
            OpType::Resize { attr } => attr.compile_ok(op, tensors),
            OpType::Unknown => false,
        }
    }

    /// Whether the launch geometry of this kind is computable for the
    /// operator on this machine.
    pub open spec fn wg_ok(&self, op: Op, tensors: Seq<(Seq<char>, Tensor)>) -> bool {
        match self {
            OpType::Add { .. } => ew_wg_ok(op, tensors),
            OpType::Div { .. } => ew_wg_ok(op, tensors),
            OpType::Mul { .. } => ew_wg_ok(op, tensors),
            OpType::Relu { .. } => ew_wg_ok(op, tensors),
            OpType::Sigmoid { .. } => ew_wg_ok(op, tensors),
            OpType::HardSigmoid { .. } => ew_wg_ok(op, tensors),
            OpType::Clip { .. } => ew_wg_ok(op, tensors),
            OpType::Concat { .. } => out_ew_wg_ok(op, tensors),
            OpType::Gemm { .. } => pair_wg_ok(op, tensors, 1, 16, 0, 16),
            OpType::Flatten { .. } => pair_wg_ok(op, tensors, 1, 32, 0, 8),
            OpType::GlobalAveragePool { .. } => pair_wg_ok(op, tensors, 0, 16, 1, 16),
            OpType::BatchNormalization { .. } => pair_wg_ok(op, tensors, 2, 16, 3, 16),
            OpType::Conv { .. } => conv_wg_ok(op, tensors),
            OpType::ConvTranspose { .. } => conv_wg_ok(op, tensors),
            OpType::MaxPool { .. } => pool_wg_ok(op, tensors),
            OpType::AveragePool { .. } => pool_wg_ok(op, tensors),
            OpType::Resize { .. } => resize_wg_ok(op, tensors),
            OpType::Unknown => false,
        }
    }

    /// The launch geometry of this kind for the operator, as workgroup
    /// counts per axis.
    pub open spec fn wg_spec(&self, op: Op, tensors: Seq<(Seq<char>, Tensor)>) -> (int, int, int) {
        let s = out_shape(op, tensors);
        match self {
            OpType::Add { .. } => (ew_wg(op, tensors), 1, 1),
            OpType::Div { .. } => (ew_wg(op, tensors), 1, 1),
            OpType::Mul { .. } => (ew_wg(op, tensors), 1, 1),
            OpType::Relu { .. } => (ew_wg(op, tensors), 1, 1),
            OpType::Sigmoid { .. } => (ew_wg(op, tensors), 1, 1),
            OpType::HardSigmoid { .. } => (ew_wg(op, tensors), 1, 1),
            OpType::Clip { .. } => (ew_wg(op, tensors), 1, 1),
            OpType::Concat { .. } => ((shape_product(s) + 255) / 256, 1, 1),
            OpType::Gemm { .. } => ((s[1] + 15) / 16, (s[0] + 15) / 16, 1),
            OpType::Flatten { .. } => ((s[1] + 31) / 32, (s[0] + 7) / 8, 1),
            OpType::GlobalAveragePool { .. } => ((s[0] + 15) / 16, (s[1] + 15) / 16, 1),
            OpType::BatchNormalization { .. } => ((s[2] + 15) / 16, (s[3] + 15) / 16, 1),
            OpType::Conv { .. } => ((s[3] + 15) / 16, (s[2] + 15) / 16, s[0] * s[1]),
            OpType::ConvTranspose { .. } => ((s[3] + 15) / 16, (s[2] + 15) / 16, s[0] * s[1]),
            OpType::MaxPool { .. } => ((s[3] + 15) / 16, (s[2] + 3) / 4, (s[0] * s[1] + 3) / 4),
            OpType::AveragePool { .. } => ((s[3] + 15) / 16, (s[2] + 3) / 4, (s[0] * s[1] + 3) / 4),
            OpType::Resize { .. } => ((s[3] + 15) / 16, (s[2] * s[1] + 15) / 16, 1),
            OpType::Unknown => (0, 0, 0),
        }
    }

    /// Materializes the shader for one operator: builds the template set
    /// named after the operator, lets the kind bind its variables, merges
    /// the fusion extras into the context, renders the template, and
    /// computes the launch geometry. The sentinel kind is rejected.
    pub fn compile(
        &self,
        shader_source: &str,
        unary_source: &str,
        binary_source: &str,
        op: &Op,
        graph: &Graph,
    ) -> (r: Result<(String, [u32; 3]), GosonnxError>)
        ensures
            self is Unknown ==> r is Err,
            r is Ok ==> templates_accepted(
                op.op_name@,
                shader_source@,
                unary_source@,
                binary_source@,
            ),
            r is Ok ==> self.spec_compile_ok(*op, graph.tensor_map@),
            r is Ok ==> self.wg_ok(*op, graph.tensor_map@),
            r is Ok ==> {
                let wg = self.wg_spec(*op, graph.tensor_map@);
                &&& r->Ok_0.1@[0] == wg.0
                &&& r->Ok_0.1@[1] == wg.1
                &&& r->Ok_0.1@[2] == wg.2
            },
    {
        let mut templ = match ShaderTemplate::new(
            op.op_name.as_str(),
            shader_source,
            unary_source,
            binary_source,
        ) {
            Ok(t) => t,
            Err(e) => {
                return Err(e);
            }
        };
        let compile_result: Result<(), GosonnxError> = match self {
            OpType::Add { attr } => attr.compile(op, &mut templ, graph),
            OpType::AveragePool { attr } => attr.compile(op, &mut templ, graph),
            OpType::BatchNormalization { attr } => attr.compile(op, &mut templ, graph),
            OpType::Clip { attr } => attr.compile(op, &mut templ, graph),
            OpType::Concat { attr } => attr.compile(op, &mut templ, graph),
            OpType::Conv { attr } => attr.compile(op, &mut templ, graph),
            OpType::ConvTranspose { attr } => attr.compile(op, &mut templ, graph),
            OpType::Div { attr } => attr.compile(op, &mut templ, graph),
            OpType::Flatten { attr } => attr.compile(op, &mut templ, graph),
            OpType::Gemm { attr } => attr.compile(op, &mut templ, graph),
            OpType::GlobalAveragePool { attr } => attr.compile(op, &mut templ, graph),
            OpType::HardSigmoid { attr } => attr.compile(op, &mut templ, graph),
            OpType::MaxPool { attr } => attr.compile(op, &mut templ, graph),
            OpType::Mul { attr } => attr.compile(op, &mut templ, graph),
            OpType::Relu { attr } => attr.compile(op, &mut templ, graph),
            OpType::Resize { attr } => attr.compile(op, &mut templ, graph),
            OpType::Sigmoid { attr } => attr.compile(op, &mut templ, graph),
            OpType::Unknown => Err(
                GosonnxError::Error("the sentinel operator kind cannot be compiled".to_owned()),
            ),
        };
        match compile_result {
            Ok(()) => {}
            Err(e) => {
                return Err(e);
            }
        }
        merge_extra_attrs(op, &mut templ);
        let compiled = match templ.compile() {
            Ok(s) => s,
            Err(e) => {
                return Err(e);
            }
        };
        let wg = match self {
            OpType::Add { .. } => input_elementwise_geometry(op, graph),
            OpType::Div { .. } => input_elementwise_geometry(op, graph),
            OpType::Mul { .. } => input_elementwise_geometry(op, graph),
            OpType::Relu { .. } => input_elementwise_geometry(op, graph),
            OpType::Sigmoid { .. } => input_elementwise_geometry(op, graph),
            OpType::HardSigmoid { .. } => input_elementwise_geometry(op, graph),
            OpType::Clip { .. } => input_elementwise_geometry(op, graph),
            OpType::Concat { .. } => output_elementwise_geometry(op, graph),
            OpType::Gemm { .. } => pair_geometry(op, graph, 1, 16, 0, 16),
            OpType::Flatten { .. } => pair_geometry(op, graph, 1, 32, 0, 8),
            OpType::GlobalAveragePool { .. } => pair_geometry(op, graph, 0, 16, 1, 16),
            OpType::BatchNormalization { .. } => pair_geometry(op, graph, 2, 16, 3, 16),
            OpType::Conv { .. } => conv_geometry(op, graph),
            OpType::ConvTranspose { .. } => conv_geometry(op, graph),
            OpType::MaxPool { .. } => pool_geometry(op, graph),
            OpType::AveragePool { .. } => pool_geometry(op, graph),
            OpType::Resize { .. } => resize_geometry(op, graph),
            OpType::Unknown => Err(
                GosonnxError::Error("the sentinel operator kind cannot be compiled".to_owned()),
            ),
        };
        match wg {
            Ok(w) => Ok((compiled, w)),
            Err(e) => Err(e),
        }
    }
}

} // verus!
