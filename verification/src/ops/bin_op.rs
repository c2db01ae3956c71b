use vstd::prelude::*;
use vstd::string::StringExecFns;

use crate::errors::GosonnxError;
use crate::graph::{Graph, Op, Tensor};
use crate::ops::{ceil_div_u32, lookup_tensor, to_csv_str, ShaderTemplate, TValue, TemplateValue};
use crate::store::get_key;
use crate::utils::{
    copy_vec, csv_ints, dec_int, i64_to_string, lemma_shape_product_nonneg,
    lemma_shape_product_skip, shape_element_count, shape_product,
};

verus! {

/// The attribute record of the binary elementwise operators (`Add`, `Mul`,
/// `Div`); they carry no attributes of their own.
#[derive(Debug)]
pub struct BinOpElementwise;

/// The larger of two lengths.
pub open spec fn max_len(a: int, b: int) -> int {
    if a >= b {
        a
    } else {
        b
    }
}

/// Axis `i` of `s` when `s` is right-aligned to rank `m` and padded with
/// leading 1s.
pub open spec fn padded_dim(s: Seq<i64>, m: int, i: int) -> i64 {
    if i < m - s.len() {
        1
    } else {
        s[i - (m - s.len())]
    }
}

/// One axis pair broadcasts when the sizes agree or either is 1.
pub open spec fn axis_compatible(a: i64, b: i64) -> bool {
    a == b || a == 1 || b == 1
}

/// The broadcast size of one axis pair.
pub open spec fn axis_broadcast(a: i64, b: i64) -> i64 {
    if a == 1 {
        b
    } else {
        a
    }
}

/// Whether two shapes broadcast: right-aligned, the shorter padded with
/// 1s, every axis pair equal or holding a 1.
pub open spec fn broadcast_compatible(s1: Seq<i64>, s2: Seq<i64>) -> bool {
    forall|i: int|
        0 <= i < max_len(s1.len() as int, s2.len() as int) ==> axis_compatible(
            padded_dim(s1, max_len(s1.len() as int, s2.len() as int), i),
            padded_dim(s2, max_len(s1.len() as int, s2.len() as int), i),
        )
}

/// The right-aligned broadcast of two shapes.
pub open spec fn broadcast_shape(s1: Seq<i64>, s2: Seq<i64>) -> Seq<i64> {
    Seq::new(
        max_len(s1.len() as int, s2.len() as int) as nat,
        |i: int|
            axis_broadcast(
                padded_dim(s1, max_len(s1.len() as int, s2.len() as int), i),
                padded_dim(s2, max_len(s1.len() as int, s2.len() as int), i),
            ),
    )
}

/// The machine bound on stride arithmetic: all dimension sizes are
/// non-negative and every suffix product of the shape fits in `i64`.
pub open spec fn strides_ok(s: Seq<i64>) -> bool {
    &&& (forall|j: int| 0 <= j < s.len() ==> s[j] >= 0)
    &&& (forall|k: int| 0 <= k <= s.len() ==> shape_product(s.skip(k)) <= i64::MAX)
}

/// The physical strides of a row-major shape: each axis's stride is the
/// product of the sizes behind it.
pub open spec fn spec_strides(s: Seq<i64>) -> Seq<i64> {
    Seq::new(s.len(), |i: int| shape_product(s.skip(i + 1)) as i64)
}

/// The logical strides of `s` against `other`: the physical stride for
/// each axis, or 0 where the axis was broadcast-padded or has size 1
/// against a differing axis of `other`.
pub open spec fn logical_strides(s: Seq<i64>, other: Seq<i64>) -> Seq<i64> {
    Seq::new(
        max_len(s.len() as int, other.len() as int) as nat,
        |i: int|
            {
                let m = max_len(s.len() as int, other.len() as int);
                if i < m - s.len() {
                    0
                } else if padded_dim(s, m, i) == 1 && padded_dim(other, m, i) != 1 {
                    0
                } else {
                    spec_strides(s)[i - (m - s.len())]
                }
            },
    )
}

/// Whether both vectors hold the same dimension sizes.
fn vec_i64_eq(a: &Vec<i64>, b: &Vec<i64>) -> (r: bool)
    ensures
        r == (a@ == b@),
{
    if a.len() != b.len() {
        proof {
            assert(a@ != b@);
        }
        return false;
    }
    let n = a.len();
    for i in 0..n
        invariant
            n == a@.len() == b@.len(),
            forall|j: int| 0 <= j < i ==> a@[j] == b@[j],
    {
        if a[i] != b[i] {
            return false;
        }
    }
    proof {
        assert(a@ =~= b@);
    }
    true
}

/// Whether stride arithmetic over `shape` stays within the machine range.
pub fn check_strides_ok(shape: &Vec<i64>) -> (r: bool)
    ensures
        r == strides_ok(shape@),
{
    let n = shape.len();
    for i in 0..n
        invariant
            n == shape@.len(),
            forall|j: int| 0 <= j < i ==> shape@[j] >= 0,
    {
        if shape[i] < 0 {
            return false;
        }
    }
    let mut acc: i128 = 1;
    let mut k = n;
    proof {
        assert(shape@.skip(n as int) =~= Seq::<i64>::empty());
    }
    while k > 0
        invariant
            n == shape@.len(),
            k <= n,
            forall|j: int| 0 <= j < n ==> shape@[j] >= 0,
            acc as int == shape_product(shape@.skip(k as int)),
            0 <= acc <= i64::MAX as i128,
            forall|t: int| k <= t <= n ==> shape_product(shape@.skip(t)) <= i64::MAX,
        decreases k,
    {
        k = k - 1;
        proof {
            lemma_shape_product_skip(shape@, k as int);
            lemma_shape_product_nonneg(shape@.skip(k as int));
            let a = shape@[k as int] as int;
            let b = acc as int;
            assert(a * b <= (i64::MAX as int) * (i64::MAX as int)) by (nonlinear_arith)
                requires
                    0 <= a <= i64::MAX as int,
                    0 <= b <= i64::MAX as int,
            ;
        }
        acc = (shape[k] as i128) * acc;
        if acc > (i64::MAX as i128) {
            return false;
        }
    }
    true
}

/// The physical strides of a row-major shape: each axis's stride is the
/// product of the dimension sizes behind it.
pub fn shape_to_strides(shape: &Vec<i64>) -> (r: Vec<i64>)
    requires
        strides_ok(shape@),
    ensures
        r@ == spec_strides(shape@),
{
    let n = shape.len();
    let mut res: Vec<i64> = Vec::new();
    let mut acc: i64 = 1;
    let mut k = n;
    proof {
        assert(shape@.skip(n as int) =~= Seq::<i64>::empty());
    }
    while k > 0
        invariant
            n == shape@.len(),
            k <= n,
            strides_ok(shape@),
            acc as int == shape_product(shape@.skip(k as int)),
            0 <= acc,
            res@.len() == n - k,
            forall|t: int|
                0 <= t < res@.len() ==> res@[t] as int == shape_product(
                    shape@.skip(k as int + 1 + t),
                ),
        decreases k,
    {
        k = k - 1;
        let ghost pre = res@;
        res.insert(0, acc);
        proof {
            assert(res@ =~= pre.insert(0, acc));
            lemma_shape_product_skip(shape@, k as int);
            lemma_shape_product_nonneg(shape@.skip(k as int));
            lemma_shape_product_nonneg(shape@.skip(k as int + 1));
        }
        acc = shape[k] * acc;
    }
    proof {
        assert(res@ =~= spec_strides(shape@));
    }
    res
}

/// Axis `i` of `s` right-aligned to rank `m`.
fn padded_get(s: &Vec<i64>, m: usize, i: usize) -> (r: i64)
    requires
        s@.len() <= m,
        i < m,
    ensures
        r == padded_dim(s@, m as int, i as int),
{
    if i < m - s.len() {
        1
    } else {
        s[i - (m - s.len())]
    }
}

/// The result of aligning two shapes for elementwise broadcast: the common
/// shape, each side's physical strides, and — where a side is actually
/// broadcast — its logical strides.
#[derive(Debug)]
pub struct BroadcastResult {
    pub shape: Vec<i64>,
    pub left_physical_strides: Vec<i64>,
    pub right_physical_strides: Vec<i64>,
    pub left_logical_strides: Option<Vec<i64>>,
    pub right_logical_strides: Option<Vec<i64>>,
}

/// Computes the right-aligned broadcast of two shapes: `None` when they
/// are already equal, the broadcast data when they are compatible, and an
/// `IncompatibleShape` failure exactly when they cannot be broadcast.
pub fn get_broadcast_shape(s1: Vec<i64>, s2: Vec<i64>) -> (r: Result<
    Option<BroadcastResult>,
    GosonnxError,
>)
    requires
        strides_ok(s1@),
        strides_ok(s2@),
    ensures
        match r {
            Ok(None) => s1@ == s2@,
            Ok(Some(b)) => {
                &&& s1@ != s2@
                &&& broadcast_compatible(s1@, s2@)
                &&& b.shape@ == broadcast_shape(s1@, s2@)
                &&& b.left_physical_strides@ == spec_strides(s1@)
                &&& b.right_physical_strides@ == spec_strides(s2@)
                &&& (match b.left_logical_strides {
                    None => broadcast_shape(s1@, s2@) == s1@,
                    Some(v) => broadcast_shape(s1@, s2@) != s1@ && v@ == logical_strides(s1@, s2@),
                })
                &&& (match b.right_logical_strides {
                    None => broadcast_shape(s1@, s2@) == s2@,
                    Some(v) => broadcast_shape(s1@, s2@) != s2@ && v@ == logical_strides(s2@, s1@),
                })
            },
            Err(e) => s1@ != s2@ && !broadcast_compatible(s1@, s2@) && e is IncompatibleShape,
        },
{
    if vec_i64_eq(&s1, &s2) {
        return Ok(None);
    }
    let l_physical = shape_to_strides(&s1);
    let r_physical = shape_to_strides(&s2);
    let m = if s1.len() >= s2.len() {
        s1.len()
    } else {
        s2.len()
    };
    let mut common: Vec<i64> = Vec::new();
    for i in 0..m
        invariant
            m == max_len(s1@.len() as int, s2@.len() as int),
            common@.len() == i,
            forall|j: int|
                0 <= j < i ==> axis_compatible(
                    padded_dim(s1@, m as int, j),
                    padded_dim(s2@, m as int, j),
                ),
            forall|j: int| 0 <= j < i ==> common@[j] == broadcast_shape(s1@, s2@)[j],
            s1@.len() <= m,
            s2@.len() <= m,
    {
        let a = padded_get(&s1, m, i);
        let b = padded_get(&s2, m, i);
        if !(a == b || a == 1 || b == 1) {
            return Err(GosonnxError::IncompatibleShape {
                msg: "tensor shapes are incompatible".to_owned(),
                expected: s1,
                found: s2,
            });
        }
        common.push(if a == 1 {
            b
        } else {
            a
        });
    }
    assert(common@ =~= broadcast_shape(s1@, s2@));
    let mut l_logical: Vec<i64> = Vec::new();
    let mut r_logical: Vec<i64> = Vec::new();
    for i in 0..m
        invariant
            m == max_len(s1@.len() as int, s2@.len() as int),
            s1@.len() <= m,
            s2@.len() <= m,
            l_physical@ == spec_strides(s1@),
            r_physical@ == spec_strides(s2@),
            l_logical@.len() == i,
            r_logical@.len() == i,
            forall|j: int| 0 <= j < i ==> l_logical@[j] == logical_strides(s1@, s2@)[j],
            forall|j: int| 0 <= j < i ==> r_logical@[j] == logical_strides(s2@, s1@)[j],
    {
        let a = padded_get(&s1, m, i);
        let b = padded_get(&s2, m, i);
        if i < m - s1.len() {
            l_logical.push(0);
        } else if a == 1 && b != 1 {
            l_logical.push(0);
        } else {
            l_logical.push(l_physical[i - (m - s1.len())]);
        }
        if i < m - s2.len() {
            r_logical.push(0);
        } else if b == 1 && a != 1 {
            r_logical.push(0);
        } else {
            r_logical.push(r_physical[i - (m - s2.len())]);
        }
    }
    proof {
        assert(l_logical@ =~= logical_strides(s1@, s2@));
        assert(r_logical@ =~= logical_strides(s2@, s1@));
    }
    let left_logical_strides = if vec_i64_eq(&common, &s1) {
        None
    } else {
        Some(l_logical)
    };
    let right_logical_strides = if vec_i64_eq(&common, &s2) {
        None
    } else {
        Some(r_logical)
    };
    Ok(
        Some(
            BroadcastResult {
                shape: common,
                left_physical_strides: l_physical,
                right_physical_strides: r_physical,
                left_logical_strides,
                right_logical_strides,
            },
        ),
    )
}

/// The opening of the generated index-mapping function.
pub open spec fn offset_fn_header(sfx: Seq<char>) -> Seq<char> {
    "uint get_direct_strided_offset_"@ + sfx
        + "(uint i) {\n    uint strided_offset = 0;\n    uint idx;\n"@
}

/// The two generated lines for one axis: nothing where the logical stride
/// is 0, else the index decomposition against the axis's cumulative
/// factor — the suffix product of the common shape — and the offset
/// accumulation against the actual stride.
pub open spec fn axis_line(shape: Seq<i64>, logical: Seq<i64>, actual: Seq<i64>, j: int) -> Seq<
    char,
> {
    if logical[j] != 0 {
        "    idx = (i / "@ + dec_int(shape_product(shape.skip(j + 1))) + ") % "@ + dec_int(
            shape[j] as int,
        ) + ";\n    strided_offset += idx * "@ + dec_int(actual[j] as int) + ";\n"@
    } else {
        Seq::empty()
    }
}

/// The axis lines after `t` axes have been handled, last axis first.
pub open spec fn offset_fn_lines(shape: Seq<i64>, logical: Seq<i64>, actual: Seq<i64>, t: int)
    -> Seq<char>
    decreases t,
{
    if t <= 0 {
        Seq::empty()
    } else {
        offset_fn_lines(shape, logical, actual, t - 1) + axis_line(
            shape,
            logical,
            actual,
            shape.len() - t,
        )
    }
}

/// The whole generated GLSL function mapping a flat output index to a
/// strided input offset.
pub open spec fn offset_fn_text(
    sfx: Seq<char>,
    shape: Seq<i64>,
    logical: Seq<i64>,
    actual: Seq<i64>,
) -> Seq<char> {
    offset_fn_header(sfx) + offset_fn_lines(shape, logical, actual, shape.len() as int)
        + "    return strided_offset;\n}\n"@
}

/// Generates the GLSL helper that maps a flat output index to a strided
/// input offset: walking the axes from the last, it divides the index by
/// the axis's cumulative factor, reduces it modulo the axis size, and
/// accumulates the product with the actual stride — skipping axes whose
/// logical stride is 0.
#[verifier::rlimit(100)]
pub fn generate_direct_strided_offset_glsl(
    fn_name_suffix: &str,
    common_shape: &Vec<i64>,
    logical_strides: &Vec<i64>,
    actual_strides: &Vec<i64>,
) -> (r: String)
    requires
        strides_ok(common_shape@),
        logical_strides@.len() == common_shape@.len(),
        actual_strides@.len() == common_shape@.len(),
    ensures
        r@ == offset_fn_text(fn_name_suffix@, common_shape@, logical_strides@, actual_strides@),
{
    let n = common_shape.len();
    let mut code = "uint get_direct_strided_offset_".to_owned();
    code.append(fn_name_suffix);
    code.append("(uint i) {\n    uint strided_offset = 0;\n    uint idx;\n");
    let mut cumulative_factor: i64 = 1;
    proof {
        assert(common_shape@.skip(n as int) =~= Seq::<i64>::empty());
    }
    for t in 0..n
        invariant
            n == common_shape@.len(),
            logical_strides@.len() == n,
            actual_strides@.len() == n,
            strides_ok(common_shape@),
            cumulative_factor as int == shape_product(common_shape@.skip(n - t as int)),
            0 <= cumulative_factor,
            code@ == offset_fn_header(fn_name_suffix@) + offset_fn_lines(
                common_shape@,
                logical_strides@,
                actual_strides@,
                t as int,
            ),
    {
        let j = n - 1 - t;
        proof {
            lemma_shape_product_skip(common_shape@, j as int);
            lemma_shape_product_nonneg(common_shape@.skip(j as int));
            lemma_shape_product_nonneg(common_shape@.skip(j + 1));
        }
        if logical_strides[j] != 0 {
            code.append("    idx = (i / ");
            let c = i64_to_string(cumulative_factor);
            code.append(c.as_str());
            code.append(") % ");
            let d = i64_to_string(common_shape[j]);
            code.append(d.as_str());
            code.append(";\n    strided_offset += idx * ");
            let a = i64_to_string(actual_strides[j]);
            code.append(a.as_str());
            code.append(";\n");
        }
        proof {
            let cf = cumulative_factor as int;
            let sj = common_shape@[j as int] as int;
            assert(cf == shape_product(common_shape@.skip(j + 1)));
            assert(cf * sj == sj * cf) by (nonlinear_arith);
            assert(cf * sj == shape_product(common_shape@.skip(j as int)));
            assert(0 <= shape_product(common_shape@.skip(j as int)) <= i64::MAX);
        }
        cumulative_factor = cumulative_factor * common_shape[j];
        assert(code@ =~= offset_fn_header(fn_name_suffix@) + offset_fn_lines(
            common_shape@,
            logical_strides@,
            actual_strides@,
            t + 1,
        ));
    }
    code.append("    return strided_offset;\n}\n");
    proof {
        assert(code@ =~= offset_fn_text(
            fn_name_suffix@,
            common_shape@,
            logical_strides@,
            actual_strides@,
        ));
    }
    code
}

/// The physical strides of `s` left-padded with 0s to rank `m`: the
/// actual-stride vector handed to the offset generator.
pub open spec fn padded_strides(s: Seq<i64>, m: int) -> Seq<i64> {
    Seq::new(
        m as nat,
        |i: int|
            if i < m - s.len() {
                0
            } else {
                spec_strides(s)[i - (m - s.len())]
            },
    )
}

/// Sequence of mathematical integers of a dimension vector.
pub open spec fn ints_of(s: Seq<i64>) -> Seq<int> {
    s.map_values(|x: i64| x as int)
}

/// Everything a binary elementwise compile needs: two input tensors and
/// one output tensor registered under the operator's names, machine-range
/// element counts and strides, and shapes that are equal or broadcast to
/// a machine-range common shape.
pub open spec fn binary_ok(op: Op, tensors: Seq<(Seq<char>, Tensor)>) -> bool {
    &&& op.inputs@.len() >= 2
    &&& op.outputs@.len() >= 1
    &&& get_key(tensors, op.inputs@[0]@) is Some
    &&& get_key(tensors, op.inputs@[1]@) is Some
    &&& get_key(tensors, op.outputs@[0]@) is Some
    &&& {
        let s1 = get_key(tensors, op.inputs@[0]@)->Some_0.spec_shape();
        let s2 = get_key(tensors, op.inputs@[1]@)->Some_0.spec_shape();
        &&& shape_product(s1) <= usize::MAX
        &&& shape_product(s2) <= usize::MAX
        &&& strides_ok(s1)
        &&& strides_ok(s2)
        &&& (s1 == s2 || (broadcast_compatible(s1, s2) && strides_ok(broadcast_shape(s1, s2))))
    }
}

/// The bindings a binary elementwise compile pushes, over the prior
/// binding map: the broadcast data where the shapes differ, then the GLSL
/// types and the two single-element marks.
pub open spec fn binary_bindings(
    m0: Map<Seq<char>, TValue>,
    s1: Seq<i64>,
    s2: Seq<i64>,
    glsl1: Seq<char>,
    glsl2: Seq<char>,
    glsl_out: Seq<char>,
    n1: int,
    n2: int,
) -> Map<Seq<char>, TValue> {
    let c = broadcast_shape(s1, s2);
    let base = if s1 == s2 {
        m0
    } else {
        let m1 = m0.insert("common_shape"@, TValue::Text(csv_ints(c))).insert(
            "common_shape_len"@,
            TValue::Int(c.len() as int),
        );
        let m2 = if c == s1 {
            m1
        } else {
            m1.insert(
                "get_direct_strided_offset_l_fn"@,
                TValue::Text(
                    offset_fn_text(
                        "l"@,
                        c,
                        logical_strides(s1, s2),
                        padded_strides(s1, c.len() as int),
                    ),
                ),
            ).insert("left_physical_strides"@, TValue::Ints(ints_of(spec_strides(s1)))).insert(
                "left_logical_strides"@,
                TValue::Ints(ints_of(logical_strides(s1, s2))),
            )
        };
        if c == s2 {
            m2
        } else {
            m2.insert(
                "get_direct_strided_offset_r_fn"@,
                TValue::Text(
                    offset_fn_text(
                        "r"@,
                        c,
                        logical_strides(s2, s1),
                        padded_strides(s2, c.len() as int),
                    ),
                ),
            ).insert("right_physical_strides"@, TValue::Ints(ints_of(spec_strides(s2)))).insert(
                "right_logical_strides"@,
                TValue::Ints(ints_of(logical_strides(s2, s1))),
            )
        }
    };
    base.insert("input_1_type"@, TValue::Text(glsl1)).insert(
        "input_2_type"@,
        TValue::Text(glsl2),
    ).insert("output_type"@, TValue::Text(glsl_out)).insert(
        "left_oneval"@,
        TValue::Bool(n1 <= 1),
    ).insert("right_oneval"@, TValue::Bool(n2 <= 1))
}

/// Left-pads the physical strides of `s` with 0s to rank `m`.
fn pad_strides(physical: &Vec<i64>, m: usize) -> (r: Vec<i64>)
    requires
        physical@.len() <= m,
    ensures
        r@.len() == m,
        forall|i: int|
            0 <= i < m ==> r@[i] == (if i < m - physical@.len() {
                0i64
            } else {
                physical@[i - (m - physical@.len())]
            }),
{
    let mut r: Vec<i64> = Vec::new();
    let pad = m - physical.len();
    for i in 0..pad
        invariant
            r@.len() == i,
            forall|j: int| 0 <= j < i ==> r@[j] == 0i64,
    {
        r.push(0);
    }
    let np = physical.len();
    for i in 0..np
        invariant
            np == physical@.len(),
            pad == m - np,
            r@.len() == pad + i,
            forall|j: int| 0 <= j < pad ==> r@[j] == 0i64,
            forall|j: int| pad <= j < pad + i ==> r@[j] == physical@[j - pad],
    {
        r.push(physical[i]);
    }
    r
}

/// Binds a binary elementwise operator: when the input shapes differ, the
/// right-aligned common shape, each broadcast side's strides and its
/// index-mapping GLSL; always the GLSL element types and whether either
/// side is a single value. Shapes that cannot be broadcast are rejected
/// with `IncompatibleShape`; the context is only written on success.
pub fn compile_binary(op: &Op, shader_templ: &mut ShaderTemplate, graph: &Graph) -> (r: Result<
    (),
    GosonnxError,
>)
    ensures
        (r is Ok) <==> binary_ok(*op, graph.tensor_map@),
        r is Err ==> *final(shader_templ) == *old(shader_templ),
        ({
            let s1 = get_key(graph.tensor_map@, op.inputs@[0]@)->Some_0.spec_shape();
            let s2 = get_key(graph.tensor_map@, op.inputs@[1]@)->Some_0.spec_shape();
            (op.inputs@.len() >= 2 && op.outputs@.len() >= 1 && get_key(
                graph.tensor_map@,
                op.inputs@[0]@,
            ) is Some && get_key(graph.tensor_map@, op.inputs@[1]@) is Some && get_key(
                graph.tensor_map@,
                op.outputs@[0]@,
            ) is Some && shape_product(s1) <= usize::MAX && shape_product(s2) <= usize::MAX
                && strides_ok(s1) && strides_ok(s2) && s1 != s2 && !broadcast_compatible(s1, s2))
                ==> (r is Err && r->Err_0 is IncompatibleShape)
        }),
        r is Ok ==> final(shader_templ).bindings() == binary_bindings(
            old(shader_templ).bindings(),
            get_key(graph.tensor_map@, op.inputs@[0]@)->Some_0.spec_shape(),
            get_key(graph.tensor_map@, op.inputs@[1]@)->Some_0.spec_shape(),
            get_key(graph.tensor_map@, op.inputs@[0]@)->Some_0.spec_type_glsl(),
            get_key(graph.tensor_map@, op.inputs@[1]@)->Some_0.spec_type_glsl(),
            get_key(graph.tensor_map@, op.outputs@[0]@)->Some_0.spec_type_glsl(),
            shape_product(get_key(graph.tensor_map@, op.inputs@[0]@)->Some_0.spec_shape()),
            shape_product(get_key(graph.tensor_map@, op.inputs@[1]@)->Some_0.spec_shape()),
        ),
        final(shader_templ).templates() == old(shader_templ).templates(),
        final(shader_templ).name() == old(shader_templ).name(),
{
    if op.inputs.len() < 2 {
        return Err(GosonnxError::InvalidInputNo { expected: 2, found: op.inputs.len() });
    }
    if op.outputs.len() < 1 {
        return Err(GosonnxError::Error("a binary operator needs an output".to_owned()));
    }
    let input_1 = match lookup_tensor(graph, &op.inputs[0]) {
        Ok(t) => t,
        Err(e) => {
            return Err(e);
        }
    };
    let input_2 = match lookup_tensor(graph, &op.inputs[1]) {
        Ok(t) => t,
        Err(e) => {
            return Err(e);
        }
    };
    let output = match lookup_tensor(graph, &op.outputs[0]) {
        Ok(t) => t,
        Err(e) => {
            return Err(e);
        }
    };
    let s1 = input_1.shape();
    let s2 = input_2.shape();
    let l_len = match shape_element_count(&s1) {
        Ok(n) => n,
        Err(m) => {
            return Err(GosonnxError::Error(m));
        }
    };
    let r_len = match shape_element_count(&s2) {
        Ok(n) => n,
        Err(m) => {
            return Err(GosonnxError::Error(m));
        }
    };
    if !check_strides_ok(&s1) || !check_strides_ok(&s2) {
        return Err(GosonnxError::Error("stride arithmetic exceeds the machine range".to_owned()));
    }
    let bcast = match get_broadcast_shape(copy_vec(&s1), copy_vec(&s2)) {
        Ok(b) => b,
        Err(e) => {
            return Err(e);
        }
    };
    let left_oneval = l_len <= 1;
    let right_oneval = r_len <= 1;
    match bcast {
        None => {}
        Some(broadcast_result) => {
            if !check_strides_ok(&broadcast_result.shape) {
                return Err(
                    GosonnxError::Error("stride arithmetic exceeds the machine range".to_owned()),
                );
            }
            let common_shape = broadcast_result.shape;
            let m = common_shape.len();
            shader_templ.push_attr("common_shape", TemplateValue::Text(to_csv_str(&common_shape)));
            shader_templ.push_attr("common_shape_len", TemplateValue::Uint(m));
            match broadcast_result.left_logical_strides {
                None => {}
                Some(left_logical_strides) => {
                    let actual = pad_strides(&broadcast_result.left_physical_strides, m);
                    proof {
                        assert(actual@ =~= padded_strides(s1@, m as int));
                    }
                    let glsl = generate_direct_strided_offset_glsl(
                        "l",
                        &common_shape,
                        &left_logical_strides,
                        &actual,
                    );
                    shader_templ.push_attr(
                        "get_direct_strided_offset_l_fn",
                        TemplateValue::Text(glsl),
                    );
                    shader_templ.push_attr(
                        "left_physical_strides",
                        TemplateValue::Ints(broadcast_result.left_physical_strides),
                    );
                    shader_templ.push_attr(
                        "left_logical_strides",
                        TemplateValue::Ints(left_logical_strides),
                    );
                }
            }
            match broadcast_result.right_logical_strides {
                None => {}
                Some(right_logical_strides) => {
                    let actual = pad_strides(&broadcast_result.right_physical_strides, m);
                    proof {
                        assert(actual@ =~= padded_strides(s2@, m as int));
                    }
                    let glsl = generate_direct_strided_offset_glsl(
                        "r",
                        &common_shape,
                        &right_logical_strides,
                        &actual,
                    );
                    shader_templ.push_attr(
                        "get_direct_strided_offset_r_fn",
                        TemplateValue::Text(glsl),
                    );
                    shader_templ.push_attr(
                        "right_physical_strides",
                        TemplateValue::Ints(broadcast_result.right_physical_strides),
                    );
                    shader_templ.push_attr(
                        "right_logical_strides",
                        TemplateValue::Ints(right_logical_strides),
                    );
                }
            }
        }
    }
    shader_templ.push_attr("input_1_type", TemplateValue::Text(input_1.type_glsl()));
    shader_templ.push_attr("input_2_type", TemplateValue::Text(input_2.type_glsl()));
    shader_templ.push_attr("output_type", TemplateValue::Text(output.type_glsl()));
    shader_templ.push_attr("left_oneval", TemplateValue::Bool(left_oneval));
    shader_templ.push_attr("right_oneval", TemplateValue::Bool(right_oneval));
    proof {
        assert(ints_of(spec_strides(s1@)) =~= spec_strides(s1@).map_values(|x: i64| x as int));
        assert(ints_of(spec_strides(s2@)) =~= spec_strides(s2@).map_values(|x: i64| x as int));
    }
    Ok(())
}

impl BinOpElementwise {
    /// Delegates to the shared binary elementwise compile.
    pub fn compile(&self, op: &Op, shader_templ: &mut ShaderTemplate, graph: &Graph) -> (r: Result<
        (),
        GosonnxError,
    >)
        ensures
            (r is Ok) <==> binary_ok(*op, graph.tensor_map@),
            r is Err ==> *final(shader_templ) == *old(shader_templ),
            r is Ok ==> final(shader_templ).bindings() == binary_bindings(
                old(shader_templ).bindings(),
                get_key(graph.tensor_map@, op.inputs@[0]@)->Some_0.spec_shape(),
                get_key(graph.tensor_map@, op.inputs@[1]@)->Some_0.spec_shape(),
                get_key(graph.tensor_map@, op.inputs@[0]@)->Some_0.spec_type_glsl(),
                get_key(graph.tensor_map@, op.inputs@[1]@)->Some_0.spec_type_glsl(),
                get_key(graph.tensor_map@, op.outputs@[0]@)->Some_0.spec_type_glsl(),
                shape_product(get_key(graph.tensor_map@, op.inputs@[0]@)->Some_0.spec_shape()),
                shape_product(get_key(graph.tensor_map@, op.inputs@[1]@)->Some_0.spec_shape()),
            ),
            final(shader_templ).templates() == old(shader_templ).templates(),
            final(shader_templ).name() == old(shader_templ).name(),
    {
        compile_binary(op, shader_templ, graph)
    }

    /// One thread per element of the first input, 256 to a workgroup.
    pub fn compute_workgroup_size(&self, op: &Op, graph: &Graph) -> (r: [u32; 3])
        requires
            op.inputs@.len() >= 1,
            get_key(graph.tensor_map@, op.inputs@[0]@) is Some,
            shape_product(get_key(graph.tensor_map@, op.inputs@[0]@)->Some_0.spec_shape())
                <= usize::MAX,
            (shape_product(get_key(graph.tensor_map@, op.inputs@[0]@)->Some_0.spec_shape()) + 255)
                / 256 <= u32::MAX,
            forall|j: int|
                0 <= j < get_key(
                    graph.tensor_map@,
                    op.inputs@[0]@,
                )->Some_0.spec_shape().len() ==> get_key(
                    graph.tensor_map@,
                    op.inputs@[0]@,
                )->Some_0.spec_shape()[j] >= 0,
        ensures
            r@[0] == ((shape_product(
                get_key(graph.tensor_map@, op.inputs@[0]@)->Some_0.spec_shape(),
            ) + 255) / 256),
            r@[1] == 1u32,
            r@[2] == 1u32,
    {
        let t = match lookup_tensor(graph, &op.inputs[0]) {
            Ok(t) => t,
            Err(_) => {
                proof {
                    assert(false);
                }
                return [0, 1, 1];
            }
        };
        let shape = t.shape();
        let numel = match shape_element_count(&shape) {
            Ok(n) => n,
            Err(_) => {
                proof {
                    assert(false);
                }
                return [0, 1, 1];
            }
        };
        let wx = ceil_div_u32(numel, 256);
        [wx, 1, 1]
    }
}

} // verus!
