use vstd::prelude::*;
use vstd::string::StringExecFns;

use crate::errors::GosonnxError;
use crate::graph::{Graph, Op, Tensor};
use crate::onnx::{find_attr, GraphProto, ModelProto, NodeProto, TensorProto, ValueInfoProto};
use crate::ops::activation_op::ActivationOp;
use crate::ops::average_pool::AveragePoolOp;
use crate::ops::batch_normalization::BatchNormalizationOp;
use crate::ops::bin_op::BinOpElementwise;
use crate::ops::clip::ClipOp;
use crate::ops::concat::ConcatOp;
use crate::ops::conv::ConvOp;
use crate::ops::conv_transpose::ConvTransposeOp;
use crate::ops::flatten::FlattenOp;
use crate::ops::gemm::GemmOp;
use crate::ops::global_average_pool::GlobalAveragePoolOp;
use crate::ops::maxpool::MaxPoolOp;
use crate::ops::resize::ResizeOp;
use crate::ops::OpType;
use crate::store::{has_key, unique_keys};
use crate::utils::{
    copy_strings, copy_vec, dec_digits, decode_u32s, get_attr_f, get_attr_i, get_attr_ints,
    get_attr_string, shape_element_count, shape_product,
};

verus! {

/// The string payload of an attribute, when present.
pub open spec fn opt_attr_s(n: NodeProto, name: Seq<char>) -> Option<String> {
    match find_attr(n.attribute@, name) {
        Some(a) => Some(a.s),
        None => None,
    }
}

/// The textual float payload of an attribute, when present.
pub open spec fn opt_attr_f(n: NodeProto, name: Seq<char>) -> Option<String> {
    match find_attr(n.attribute@, name) {
        Some(a) => Some(a.f),
        None => None,
    }
}

/// The integer payload of an attribute, when present.
pub open spec fn opt_attr_i(n: NodeProto, name: Seq<char>) -> Option<i64> {
    match find_attr(n.attribute@, name) {
        Some(a) => Some(a.i),
        None => None,
    }
}

/// The integer-list payload of an attribute, when present.
pub open spec fn opt_attr_ints(n: NodeProto, name: Seq<char>) -> Option<Vec<i64>> {
    match find_attr(n.attribute@, name) {
        Some(a) => Some(a.ints),
        None => None,
    }
}

/// Whether two optional integer lists hold the same numbers.
pub open spec fn opt_ints_match(a: Option<Vec<i64>>, b: Option<Vec<i64>>) -> bool {
    match (a, b) {
        (Some(x), Some(y)) => x@ == y@,
        (None, None) => true,
        _ => false,
    }
}

/// Whether two optional strings read the same.
pub open spec fn opt_text_match(a: Option<String>, b: Option<String>) -> bool {
    match (a, b) {
        (Some(x), Some(y)) => x@ == y@,
        (None, None) => true,
        _ => false,
    }
}

/// No two operator kind names read alike; in particular the kinds with
/// required attributes are told apart from every other kind.
proof fn lemma_kind_names_distinct()
    ensures
        "Concat"@ != "Add"@ && "Concat"@ != "AveragePool"@ && "Concat"@ != "BatchNormalization"@
            && "Concat"@ != "Clip"@ && "Concat"@ != "Conv"@ && "Concat"@ != "ConvTranspose"@
            && "Concat"@ != "Div"@ && "Concat"@ != "Gemm"@ && "Concat"@ != "GlobalAveragePool"@
            && "Concat"@ != "HardSigmoid"@ && "Concat"@ != "Flatten"@ && "Concat"@ != "MaxPool"@
            && "Concat"@ != "Mul"@ && "Concat"@ != "Relu"@ && "Concat"@ != "Resize"@ && "Concat"@
            != "Sigmoid"@,
        "Flatten"@ != "Add"@ && "Flatten"@ != "AveragePool"@ && "Flatten"@
            != "BatchNormalization"@ && "Flatten"@ != "Clip"@ && "Flatten"@ != "Conv"@
            && "Flatten"@ != "ConvTranspose"@ && "Flatten"@ != "Div"@ && "Flatten"@ != "Gemm"@
            && "Flatten"@ != "GlobalAveragePool"@ && "Flatten"@ != "HardSigmoid"@ && "Flatten"@
            != "MaxPool"@ && "Flatten"@ != "Mul"@ && "Flatten"@ != "Relu"@ && "Flatten"@
            != "Resize"@ && "Flatten"@ != "Sigmoid"@,
        "Conv"@ != "Add"@ && "Conv"@ != "AveragePool"@ && "Conv"@ != "BatchNormalization"@
            && "Conv"@ != "Clip"@ && "Conv"@ != "ConvTranspose"@ && "Conv"@ != "Div"@ && "Conv"@
            != "Gemm"@ && "Conv"@ != "GlobalAveragePool"@ && "Conv"@ != "HardSigmoid"@ && "Conv"@
            != "MaxPool"@ && "Conv"@ != "Mul"@ && "Conv"@ != "Relu"@ && "Conv"@ != "Resize"@
            && "Conv"@ != "Sigmoid"@,
        "MaxPool"@ != "Add"@ && "MaxPool"@ != "AveragePool"@ && "MaxPool"@
            != "BatchNormalization"@ && "MaxPool"@ != "Clip"@ && "MaxPool"@ != "ConvTranspose"@
            && "MaxPool"@ != "Div"@ && "MaxPool"@ != "Gemm"@ && "MaxPool"@
            != "GlobalAveragePool"@ && "MaxPool"@ != "HardSigmoid"@ && "MaxPool"@ != "Mul"@
            && "MaxPool"@ != "Relu"@ && "MaxPool"@ != "Resize"@ && "MaxPool"@ != "Sigmoid"@,
{
    reveal_strlit("Add");
    reveal_strlit("AveragePool");
    reveal_strlit("BatchNormalization");
    reveal_strlit("Clip");
    reveal_strlit("Concat");
    reveal_strlit("Conv");
    reveal_strlit("ConvTranspose");
    reveal_strlit("Div");
    reveal_strlit("Gemm");
    reveal_strlit("GlobalAveragePool");
    reveal_strlit("HardSigmoid");
    reveal_strlit("Flatten");
    reveal_strlit("MaxPool");
    reveal_strlit("Mul");
    reveal_strlit("Relu");
    reveal_strlit("Resize");
    reveal_strlit("Sigmoid");
    assert("Add"@.len() == 3 && "AveragePool"@.len() == 11 && "BatchNormalization"@.len() == 18
        && "Clip"@.len() == 4 && "Concat"@.len() == 6 && "Conv"@.len() == 4
        && "ConvTranspose"@.len() == 13 && "Div"@.len() == 3 && "Gemm"@.len() == 4
        && "GlobalAveragePool"@.len() == 17 && "HardSigmoid"@.len() == 11 && "Flatten"@.len() == 7
        && "MaxPool"@.len() == 7 && "Mul"@.len() == 3 && "Relu"@.len() == 4 && "Resize"@.len()
        == 6 && "Sigmoid"@.len() == 7);
    assert("Concat"@[0] != "Resize"@[0]);
    assert("Conv"@[1] != "Clip"@[1]);
    assert("Conv"@[0] != "Gemm"@[0]);
    assert("Conv"@[0] != "Relu"@[0]);
    assert("Flatten"@[0] != "MaxPool"@[0]);
    assert("Flatten"@[0] != "Sigmoid"@[0]);
    assert("MaxPool"@[0] != "Sigmoid"@[0]);
}

/// The operator kind names this importer accepts.
pub open spec fn supported_kind(name: Seq<char>) -> bool {
    ||| name == "Add"@
    ||| name == "AveragePool"@
    ||| name == "BatchNormalization"@
    ||| name == "Clip"@
    ||| name == "Concat"@
    ||| name == "Conv"@
    ||| name == "ConvTranspose"@
    ||| name == "Div"@
    ||| name == "Gemm"@
    ||| name == "GlobalAveragePool"@
    ||| name == "HardSigmoid"@
    ||| name == "Flatten"@
    ||| name == "MaxPool"@
    ||| name == "Mul"@
    ||| name == "Relu"@
    ||| name == "Resize"@
    ||| name == "Sigmoid"@
}

/// The attributes a node must carry for its kind.
pub open spec fn required_attrs_ok(n: NodeProto) -> bool {
    &&& (n.op_type@ == "Concat"@ ==> find_attr(n.attribute@, "axis"@) is Some)
    &&& (n.op_type@ == "Flatten"@ ==> find_attr(n.attribute@, "axis"@) is Some)
    &&& (n.op_type@ == "Conv"@ ==> {
        &&& find_attr(n.attribute@, "dilations"@) is Some
        &&& find_attr(n.attribute@, "group"@) is Some
        &&& find_attr(n.attribute@, "kernel_shape"@) is Some
        &&& find_attr(n.attribute@, "pads"@) is Some
        &&& find_attr(n.attribute@, "strides"@) is Some
    })
    &&& (n.op_type@ == "MaxPool"@ ==> {
        &&& find_attr(n.attribute@, "ceil_mode"@) is Some
        &&& find_attr(n.attribute@, "kernel_shape"@) is Some
        &&& find_attr(n.attribute@, "pads"@) is Some
        &&& find_attr(n.attribute@, "strides"@) is Some
    })
}

/// Whether an operator kind record is the faithful reading of a node's
/// kind and attributes.
pub open spec fn node_matches(ot: OpType, n: NodeProto) -> bool {
    match ot {
        OpType::Add { .. } => n.op_type@ == "Add"@,
        OpType::Div { .. } => n.op_type@ == "Div"@,
        OpType::Mul { .. } => n.op_type@ == "Mul"@,
        OpType::Clip { .. } => n.op_type@ == "Clip"@,
        OpType::GlobalAveragePool { .. } => n.op_type@ == "GlobalAveragePool"@,
        OpType::AveragePool { attr } => {
            &&& n.op_type@ == "AveragePool"@
            &&& opt_text_match(attr.auto_pad, opt_attr_s(n, "auto_pad"@))
            &&& attr.ceil_mode == opt_attr_i(n, "ceil_mode"@)
            &&& opt_ints_match(attr.dilations, opt_attr_ints(n, "dilations"@))
            &&& opt_ints_match(attr.kernel_shape, opt_attr_ints(n, "kernel_shape"@))
            &&& opt_ints_match(attr.pads, opt_attr_ints(n, "pads"@))
            &&& opt_ints_match(attr.strides, opt_attr_ints(n, "strides"@))
        },
        OpType::BatchNormalization { attr } => {
            &&& n.op_type@ == "BatchNormalization"@
            &&& opt_text_match(attr.epsilon, opt_attr_f(n, "epsilon"@))
            &&& opt_text_match(attr.momentum, opt_attr_f(n, "momentum"@))
        },
        OpType::Concat { attr } => {
            &&& n.op_type@ == "Concat"@
            &&& Some(attr.axis) == opt_attr_i(n, "axis"@)
        },
        OpType::Conv { attr } => {
            &&& n.op_type@ == "Conv"@
            &&& opt_ints_match(Some(attr.dilations), opt_attr_ints(n, "dilations"@))
            &&& Some(attr.group) == opt_attr_i(n, "group"@)
            &&& opt_ints_match(Some(attr.kernel_shape), opt_attr_ints(n, "kernel_shape"@))
            &&& opt_ints_match(Some(attr.pads), opt_attr_ints(n, "pads"@))
            &&& opt_ints_match(Some(attr.strides), opt_attr_ints(n, "strides"@))
        },
        OpType::ConvTranspose { attr } => {
            &&& n.op_type@ == "ConvTranspose"@
            &&& opt_ints_match(attr.dilations, opt_attr_ints(n, "dilations"@))
            &&& attr.group == opt_attr_i(n, "group"@)
            &&& opt_ints_match(attr.kernel_shape, opt_attr_ints(n, "kernel_shape"@))
            &&& opt_ints_match(attr.output_padding, opt_attr_ints(n, "output_padding"@))
            &&& opt_ints_match(attr.output_shape, opt_attr_ints(n, "output_shape"@))
            &&& opt_ints_match(attr.pads, opt_attr_ints(n, "pads"@))
            &&& opt_ints_match(attr.strides, opt_attr_ints(n, "strides"@))
        },
        OpType::Flatten { attr } => {
            &&& n.op_type@ == "Flatten"@
            &&& Some(attr.axis) == opt_attr_i(n, "axis"@)
        },
        OpType::Gemm { attr } => {
            &&& n.op_type@ == "Gemm"@
            &&& opt_text_match(attr.alpha, opt_attr_f(n, "alpha"@))
            &&& opt_text_match(attr.beta, opt_attr_f(n, "beta"@))
            &&& attr.trans_a == opt_attr_i(n, "transA"@)
            &&& attr.trans_b == opt_attr_i(n, "transB"@)
            &&& attr.activation is None
        },
        OpType::HardSigmoid { attr } => {
            &&& n.op_type@ == "HardSigmoid"@
            &&& attr.attrs@.len() == 2
            &&& attr.attrs@[0].0@ == "alpha"@
            &&& attr.attrs@[0].1@ == (match opt_attr_f(n, "alpha"@) {
                Some(v) => v@,
                None => "0.2"@,
            })
            &&& attr.attrs@[1].0@ == "beta"@
            &&& attr.attrs@[1].1@ == (match opt_attr_f(n, "beta"@) {
                Some(v) => v@,
                None => "0.5"@,
            })
        },
        OpType::MaxPool { attr } => {
            &&& n.op_type@ == "MaxPool"@
            &&& Some(attr.ceil_mode) == opt_attr_i(n, "ceil_mode"@)
            &&& opt_ints_match(Some(attr.kernel_shape), opt_attr_ints(n, "kernel_shape"@))
            &&& opt_ints_match(Some(attr.pads), opt_attr_ints(n, "pads"@))
            &&& opt_ints_match(Some(attr.strides), opt_attr_ints(n, "strides"@))
        },
        OpType::Relu { attr } => n.op_type@ == "Relu"@ && attr.attrs@.len() == 0,
        OpType::Sigmoid { attr } => n.op_type@ == "Sigmoid"@ && attr.attrs@.len() == 0,
        OpType::Resize { attr } => {
            &&& n.op_type@ == "Resize"@
            &&& attr.antialias == opt_attr_i(n, "antialias"@)
            &&& opt_ints_match(attr.axes, opt_attr_ints(n, "axes"@))
            &&& opt_text_match(
                attr.coordinate_transformation_mode,
                opt_attr_s(n, "coordinate_transformation_mode"@),
            )
            &&& opt_text_match(attr.cubic_coeff_a, opt_attr_f(n, "cubic_coeff_a"@))
            &&& attr.exclude_outside == opt_attr_i(n, "exclude_outside"@)
            &&& opt_text_match(attr.extrapolation_value, opt_attr_f(n, "extrapolation_value"@))
            &&& opt_text_match(
                attr.keep_aspect_ratio_policy,
                opt_attr_s(n, "keep_aspect_ratio_policy"@),
            )
            &&& opt_text_match(attr.mode, opt_attr_s(n, "mode"@))
            &&& opt_text_match(attr.nearest_mode, opt_attr_s(n, "nearest_mode"@))
        },
        OpType::Unknown => false,
    }
}

impl OpType {
    /// Reads a node's kind and attributes into the operator kind record.
    /// A kind outside the supported set is rejected with
    /// `UnsupportedONNXOps`; a missing required attribute with
    /// `AttributeNotFound`.
    #[verifier::rlimit(100)]
    #[verifier::spinoff_prover]
    pub fn from_node_proto(node_proto: &NodeProto) -> (r: Result<Self, GosonnxError>)
        ensures
            (r is Ok) <==> (supported_kind(node_proto.op_type@) && required_attrs_ok(*node_proto)),
            r is Ok ==> node_matches(r->Ok_0, *node_proto),
            !supported_kind(node_proto.op_type@) ==> r is Err && r->Err_0 is UnsupportedONNXOps
                && r->Err_0->UnsupportedONNXOps_0@ == node_proto.op_type@,
            supported_kind(node_proto.op_type@) && !required_attrs_ok(*node_proto) ==> r is Err
                && r->Err_0 is AttributeNotFound,
    {
        proof {
            lemma_kind_names_distinct();
        }
        let ot = node_proto.op_type.as_str();
        if crate::store::str_eq(ot, "Add") {
            Ok(OpType::Add { attr: BinOpElementwise })
        } else if crate::store::str_eq(ot, "AveragePool") {
            Ok(
                OpType::AveragePool {
                    attr: AveragePoolOp::new(
                        get_attr_string(node_proto, "auto_pad"),
                        get_attr_i(node_proto, "ceil_mode"),
                        get_attr_ints(node_proto, "dilations"),
                        get_attr_ints(node_proto, "kernel_shape"),
                        get_attr_ints(node_proto, "pads"),
                        get_attr_ints(node_proto, "strides"),
                    ),
                },
            )
        } else if crate::store::str_eq(ot, "BatchNormalization") {
            Ok(
                OpType::BatchNormalization {
                    attr: BatchNormalizationOp::new(
                        get_attr_f(node_proto, "epsilon"),
                        get_attr_f(node_proto, "momentum"),
                    ),
                },
            )
        } else if crate::store::str_eq(ot, "Clip") {
            Ok(OpType::Clip { attr: ClipOp::new() })
        } else if crate::store::str_eq(ot, "Concat") {
            match get_attr_i(node_proto, "axis") {
                Some(axis) => Ok(OpType::Concat { attr: ConcatOp { axis } }),
                None => Err(GosonnxError::AttributeNotFound("axis".to_owned())),
            }
        } else if crate::store::str_eq(ot, "Conv") {
            let dilations = match get_attr_ints(node_proto, "dilations") {
                Some(v) => v,
                None => {
                    return Err(GosonnxError::AttributeNotFound("dilations".to_owned()));
                }
            };
            let group = match get_attr_i(node_proto, "group") {
                Some(v) => v,
                None => {
                    return Err(GosonnxError::AttributeNotFound("group".to_owned()));
                }
            };
            let kernel_shape = match get_attr_ints(node_proto, "kernel_shape") {
                Some(v) => v,
                None => {
                    return Err(GosonnxError::AttributeNotFound("kernel_shape".to_owned()));
                }
            };
            let pads = match get_attr_ints(node_proto, "pads") {
                Some(v) => v,
                None => {
                    return Err(GosonnxError::AttributeNotFound("pads".to_owned()));
                }
            };
            let strides = match get_attr_ints(node_proto, "strides") {
                Some(v) => v,
                None => {
                    return Err(GosonnxError::AttributeNotFound("strides".to_owned()));
                }
            };
            Ok(OpType::Conv { attr: ConvOp::new(dilations, group, kernel_shape, pads, strides) })
        } else if crate::store::str_eq(ot, "ConvTranspose") {
            Ok(
                OpType::ConvTranspose {
                    attr: ConvTransposeOp::new(
                        get_attr_ints(node_proto, "dilations"),
                        get_attr_i(node_proto, "group"),
                        get_attr_ints(node_proto, "kernel_shape"),
                        get_attr_ints(node_proto, "output_padding"),
                        get_attr_ints(node_proto, "output_shape"),
                        get_attr_ints(node_proto, "pads"),
                        get_attr_ints(node_proto, "strides"),
                    ),
                },
            )
        } else if crate::store::str_eq(ot, "Div") {
            Ok(OpType::Div { attr: BinOpElementwise })
        } else if crate::store::str_eq(ot, "Gemm") {
            Ok(
                OpType::Gemm {
                    attr: GemmOp::new(
                        get_attr_f(node_proto, "alpha"),
                        get_attr_f(node_proto, "beta"),
                        get_attr_i(node_proto, "transA"),
                        get_attr_i(node_proto, "transB"),
                    ),
                },
            )
        } else if crate::store::str_eq(ot, "GlobalAveragePool") {
            Ok(OpType::GlobalAveragePool { attr: GlobalAveragePoolOp::new() })
        } else if crate::store::str_eq(ot, "HardSigmoid") {
            let alpha = match get_attr_f(node_proto, "alpha") {
                Some(v) => v,
                None => "0.2".to_owned(),
            };
            let beta = match get_attr_f(node_proto, "beta") {
                Some(v) => v,
                None => "0.5".to_owned(),
            };
            let mut attrs: Vec<(String, String)> = Vec::new();
            attrs.push(("alpha".to_owned(), alpha));
            attrs.push(("beta".to_owned(), beta));
            Ok(OpType::HardSigmoid { attr: ActivationOp::new(attrs) })
        } else if crate::store::str_eq(ot, "Flatten") {
            match get_attr_i(node_proto, "axis") {
                Some(axis) => Ok(OpType::Flatten { attr: FlattenOp::new(axis) }),
                None => Err(GosonnxError::AttributeNotFound("axis".to_owned())),
            }
        } else if crate::store::str_eq(ot, "MaxPool") {
            let ceil_mode = match get_attr_i(node_proto, "ceil_mode") {
                Some(v) => v,
                None => {
                    return Err(GosonnxError::AttributeNotFound("ceil_mode".to_owned()));
                }
            };
            let kernel_shape = match get_attr_ints(node_proto, "kernel_shape") {
                Some(v) => v,
                None => {
                    return Err(GosonnxError::AttributeNotFound("kernel_shape".to_owned()));
                }
            };
            let pads = match get_attr_ints(node_proto, "pads") {
                Some(v) => v,
                None => {
                    return Err(GosonnxError::AttributeNotFound("pads".to_owned()));
                }
            };
            let strides = match get_attr_ints(node_proto, "strides") {
                Some(v) => v,
                None => {
                    return Err(GosonnxError::AttributeNotFound("strides".to_owned()));
                }
            };
            Ok(OpType::MaxPool { attr: MaxPoolOp::new(ceil_mode, kernel_shape, pads, strides) })
        } else if crate::store::str_eq(ot, "Mul") {
            Ok(OpType::Mul { attr: BinOpElementwise })
        } else if crate::store::str_eq(ot, "Relu") {
            Ok(OpType::Relu { attr: ActivationOp::new(Vec::new()) })
        } else if crate::store::str_eq(ot, "Resize") {
            Ok(
                OpType::Resize {
                    attr: ResizeOp::new(
                        get_attr_i(node_proto, "antialias"),
                        get_attr_ints(node_proto, "axes"),
                        get_attr_string(node_proto, "coordinate_transformation_mode"),
                        get_attr_f(node_proto, "cubic_coeff_a"),
                        get_attr_i(node_proto, "exclude_outside"),
                        get_attr_f(node_proto, "extrapolation_value"),
                        get_attr_string(node_proto, "keep_aspect_ratio_policy"),
                        get_attr_string(node_proto, "mode"),
                        get_attr_string(node_proto, "nearest_mode"),
                    ),
                },
            )
        } else if crate::store::str_eq(ot, "Sigmoid") {
            Ok(OpType::Sigmoid { attr: ActivationOp::new(Vec::new()) })
        } else {
            Err(GosonnxError::UnsupportedONNXOps(node_proto.op_type.clone()))
        }
    }
}

impl Tensor {
    /// Reads an initializer: the declared dimension sizes and — unless
    /// `empty` asks for a value-less tensor — the raw little-endian bytes
    /// as 32-bit float bit patterns. Only the 32-bit float type code is
    /// accepted.
    pub fn from_tensor_proto(t: &TensorProto, empty: bool) -> (r: Result<Tensor, String>)
        ensures
            (r is Ok) <==> (t.data_type == 1 && (empty || ((forall|j: int|
                0 <= j < t.dims@.len() ==> t.dims@[j] >= 0) && crate::utils::shape_product(t.dims@)
                <= usize::MAX && (crate::utils::shape_product(t.dims@) == 0 || t.raw_data@.len()
                % 4 == 0)))),
            r is Ok ==> {
                let tensor = r->Ok_0;
                &&& tensor.spec_shape() == t.dims@
                &&& tensor is F32
                &&& tensor.spec_has_values() == !empty
            },
    {
        if t.data_type != 1 {
            return Err("Unsupported tensor proto data type".to_owned());
        }
        if empty {
            return Ok(Tensor::F32 { values: None, shape: copy_vec(&t.dims) });
        }
        let tlen = match shape_element_count(&t.dims) {
            Ok(n) => n,
            Err(m) => {
                return Err(m);
            }
        };
        if tlen == 0 {
            return Ok(Tensor::F32 { values: Some(Vec::new()), shape: copy_vec(&t.dims) });
        }
        if t.raw_data.len() % 4 != 0 {
            return Err("initializer bytes do not form whole 32-bit words".to_owned());
        }
        let values = decode_u32s(&t.raw_data);
        Ok(Tensor::F32 { values: Some(values), shape: copy_vec(&t.dims) })
    }

    /// Reads a value-info entry into a value-less tensor; only the 32-bit
    /// float element type code is accepted.
    pub fn value_from_value_info_proto(value_info: &ValueInfoProto) -> (r: Result<Self, String>)
        ensures
            match r {
                Ok(tensor) => {
                    &&& value_info.field_type is Some
                    &&& value_info.field_type->Some_0.elem_type == 1
                    &&& tensor is F32
                    &&& !tensor.spec_has_values()
                    &&& tensor.spec_shape() == value_info.field_type->Some_0.dims@
                },
                Err(_) => value_info.field_type is None || value_info.field_type->Some_0.elem_type
                    != 1,
            },
    {
        match &value_info.field_type {
            Some(t) => {
                if t.elem_type == 1 {
                    Ok(Tensor::F32 { values: None, shape: copy_vec(&t.dims) })
                } else {
                    Err("the element type code is not supported yet".to_owned())
                }
            }
            None => Err("value info proto does not have an associated field type proto".to_owned()),
        }
    }
}

/// The first initializer named `name`, if the model holds one.
pub fn get_tensor_proto<'a>(name: &str, model_proto: &'a ModelProto) -> (r: Result<
    &'a TensorProto,
    GosonnxError,
>)
    ensures
        match r {
            Ok(t) => exists|i: int|
                0 <= i < model_proto.graph.initializer@.len()
                    && *t == model_proto.graph.initializer@[i] && t.name@ == name@,
            Err(e) => e is Error && (forall|i: int|
                0 <= i < model_proto.graph.initializer@.len()
                    ==> model_proto.graph.initializer@[i].name@ != name@),
        },
{
    let n = model_proto.graph.initializer.len();
    for i in 0..n
        invariant
            n == model_proto.graph.initializer@.len(),
            forall|j: int| 0 <= j < i ==> model_proto.graph.initializer@[j].name@ != name@,
    {
        if crate::store::str_eq(model_proto.graph.initializer[i].name.as_str(), name) {
            return Ok(&model_proto.graph.initializer[i]);
        }
    }
    Err(GosonnxError::Error("tensor proto associated with the name was not found".to_owned()))
}

/// Whether a value declaration can become a tensor: it must be typed
/// with the 32-bit float element code.
pub open spec fn value_info_ok(v: ValueInfoProto) -> bool {
    v.field_type is Some && v.field_type->Some_0.elem_type == 1
}

/// Whether an initializer can become a tensor: the 32-bit float type
/// code, a machine-fitting shape, and — unless the tensor is empty —
/// whole 32-bit words of raw data.
pub open spec fn initializer_ok(t: TensorProto) -> bool {
    &&& t.data_type == 1
    &&& (forall|j: int| 0 <= j < t.dims@.len() ==> t.dims@[j] >= 0)
    &&& shape_product(t.dims@) <= usize::MAX
    &&& (shape_product(t.dims@) == 0 || t.raw_data@.len() % 4 == 0)
}

/// Whether every entry of a model's graph can be imported: each input,
/// output and value declaration typed as 32-bit float, each initializer
/// decodable, and each node of a supported kind with its required
/// attributes.
pub open spec fn import_ok(g: GraphProto) -> bool {
    &&& (forall|i: int| 0 <= i < g.input@.len() ==> value_info_ok(#[trigger] g.input@[i]))
    &&& (forall|i: int| 0 <= i < g.output@.len() ==> value_info_ok(#[trigger] g.output@[i]))
    &&& (forall|i: int|
        0 <= i < g.value_info@.len() ==> value_info_ok(#[trigger] g.value_info@[i]))
    &&& (forall|i: int|
        0 <= i < g.initializer@.len() ==> initializer_ok(#[trigger] g.initializer@[i]))
    &&& (forall|i: int|
        0 <= i < g.node@.len() ==> supported_kind((#[trigger] g.node@[i]).op_type@)
            && required_attrs_ok(g.node@[i]))
}

/// How many of the first `i` nodes are unnamed.
pub open spec fn unnamed_before(nodes: Seq<NodeProto>, i: int) -> nat
    decreases i,
{
    if i <= 0 {
        0
    } else {
        unnamed_before(nodes, i - 1) + (if nodes[i - 1].name@.len() == 0 {
            1nat
        } else {
            0nat
        })
    }
}

/// Builds a graph from a parsed model: unnamed nodes receive synthetic
/// names numbered in source order; every graph input, output, initializer
/// and value-info entry becomes a tensor (later entries overwrite); every
/// node becomes an operator; and the edges are inferred. A node of an
/// unsupported kind fails the import with `UnsupportedONNXOps`.
#[verifier::rlimit(60)]
#[verifier::loop_isolation(false)]
pub fn parse_model_proto(model_proto: &mut ModelProto) -> (r: Result<Graph, GosonnxError>)
    ensures
        final(model_proto).graph.node@.len() == old(model_proto).graph.node@.len(),
        final(model_proto).graph.input == old(model_proto).graph.input,
        final(model_proto).graph.output == old(model_proto).graph.output,
        final(model_proto).graph.initializer == old(model_proto).graph.initializer,
        final(model_proto).graph.value_info == old(model_proto).graph.value_info,
        forall|i: int|
            0 <= i < old(model_proto).graph.node@.len() ==> {
                let n0 = old(model_proto).graph.node@[i];
                let n1 = #[trigger] final(model_proto).graph.node@[i];
                &&& n1.op_type == n0.op_type
                &&& n1.input == n0.input
                &&& n1.output == n0.output
                &&& n1.attribute == n0.attribute
                &&& (n0.name@.len() > 0 ==> n1.name == n0.name)
                &&& (n0.name@.len() == 0 ==> n1.name@ == "unnamed_"@ + dec_digits(
                    unnamed_before(old(model_proto).graph.node@, i) + 1,
                ))
            },
        (r is Ok) <==> import_ok(old(model_proto).graph),
        r is Ok ==> {
            let g = r->Ok_0;
            &&& unique_keys(g.tensor_map@)
            &&& unique_keys(g.op_map@)
            &&& (forall|i: int|
                0 <= i < final(model_proto).graph.input@.len() ==> has_key(
                    g.tensor_map@,
                    (#[trigger] final(model_proto).graph.input@[i]).name@,
                ))
            &&& (forall|i: int|
                0 <= i < final(model_proto).graph.output@.len() ==> has_key(
                    g.tensor_map@,
                    (#[trigger] final(model_proto).graph.output@[i]).name@,
                ))
            &&& (forall|i: int|
                0 <= i < final(model_proto).graph.initializer@.len() ==> has_key(
                    g.tensor_map@,
                    (#[trigger] final(model_proto).graph.initializer@[i]).name@,
                ))
            &&& (forall|i: int|
                0 <= i < final(model_proto).graph.value_info@.len() ==> has_key(
                    g.tensor_map@,
                    (#[trigger] final(model_proto).graph.value_info@[i]).name@,
                ))
            &&& (forall|i: int|
                0 <= i < final(model_proto).graph.node@.len() ==> has_key(
                    g.op_map@,
                    (#[trigger] final(model_proto).graph.node@[i]).name@,
                ))
            &&& g.output_tensor_map@.len() == 0
            &&& g.optional_output_tensors@.len() == 0
        },
{
    // Give every unnamed node a synthetic name, numbered in source order.
    let mut cnt: u128 = 1;
    let nn = model_proto.graph.node.len();
    let ghost nodes0 = model_proto.graph.node@;
    for i in 0..nn
        invariant
            nn == nodes0.len(),
            model_proto.graph.node@.len() == nn,
            model_proto.graph.input == old(model_proto).graph.input,
            model_proto.graph.output == old(model_proto).graph.output,
            model_proto.graph.initializer == old(model_proto).graph.initializer,
            model_proto.graph.value_info == old(model_proto).graph.value_info,
            nodes0 == old(model_proto).graph.node@,
            cnt as nat == unnamed_before(nodes0, i as int) + 1,
            cnt <= i as u128 + 1,
            forall|j: int| i <= j < nn ==> (#[trigger] model_proto.graph.node@[j]) == nodes0[j],
            forall|j: int|
                0 <= j < i ==> {
                    let n0 = nodes0[j];
                    let n1 = #[trigger] model_proto.graph.node@[j];
                    &&& n1.op_type == n0.op_type
                    &&& n1.input == n0.input
                    &&& n1.output == n0.output
                    &&& n1.attribute == n0.attribute
                    &&& (n0.name@.len() > 0 ==> n1.name == n0.name)
                    &&& (n0.name@.len() == 0 ==> n1.name@ == "unnamed_"@ + dec_digits(
                        unnamed_before(nodes0, j) + 1,
                    ))
                },
    {
        if model_proto.graph.node[i].name.as_str().is_empty() {
            let ghost pre = model_proto.graph.node@;
            let mut node = model_proto.graph.node.remove(i);
            let mut fresh = "unnamed_".to_owned();
            fresh.append(crate::utils::u128_to_string(cnt).as_str());
            node.name = fresh;
            let ghost gnode = node;
            model_proto.graph.node.insert(i, node);
            cnt = cnt + 1;
            proof {
                assert(model_proto.graph.node@ =~= pre.update(i as int, gnode));
            }
        }
    }
    let mut graph = Graph::new();
    // A tensor for every graph input, output, initializer and
    // intermediate value declaration; later entries overwrite.
    let n_in = model_proto.graph.input.len();
    for i in 0..n_in
        invariant
            n_in == model_proto.graph.input@.len(),
            unique_keys(graph.tensor_map@),
            forall|j: int|
                0 <= j < i ==> has_key(
                    graph.tensor_map@,
                    (#[trigger] model_proto.graph.input@[j]).name@,
                ),
            forall|j: int| 0 <= j < i ==> value_info_ok(#[trigger] model_proto.graph.input@[j]),
            graph.op_map@.len() == 0,
            graph.output_tensor_map@.len() == 0,
            graph.optional_output_tensors@.len() == 0,
    {
        let t = match Tensor::value_from_value_info_proto(&model_proto.graph.input[i]) {
            Ok(t) => t,
            Err(m) => {
                return Err(GosonnxError::Error(m));
            }
        };
        proof {
            crate::store::lemma_upserted(
                graph.tensor_map@,
                model_proto.graph.input@[i as int].name@,
                t,
            );
        }
        graph.tensor_map.insert(model_proto.graph.input[i].name.as_str(), t);
        proof {
            assert forall|j: int| 0 <= j <= i implies has_key(
                graph.tensor_map@,
                (#[trigger] model_proto.graph.input@[j]).name@,
            ) by {}
        }
    }
    let n_out = model_proto.graph.output.len();
    for i in 0..n_out
        invariant
            n_out == model_proto.graph.output@.len(),
            unique_keys(graph.tensor_map@),
            forall|j: int|
                0 <= j < model_proto.graph.input@.len() ==> has_key(
                    graph.tensor_map@,
                    (#[trigger] model_proto.graph.input@[j]).name@,
                ),
            forall|j: int|
                0 <= j < i ==> has_key(
                    graph.tensor_map@,
                    (#[trigger] model_proto.graph.output@[j]).name@,
                ),
            forall|j: int| 0 <= j < i ==> value_info_ok(#[trigger] model_proto.graph.output@[j]),
            graph.op_map@.len() == 0,
            graph.output_tensor_map@.len() == 0,
            graph.optional_output_tensors@.len() == 0,
    {
        let t = match Tensor::value_from_value_info_proto(&model_proto.graph.output[i]) {
            Ok(t) => t,
            Err(m) => {
                return Err(GosonnxError::Error(m));
            }
        };
        proof {
            crate::store::lemma_upserted(
                graph.tensor_map@,
                model_proto.graph.output@[i as int].name@,
                t,
            );
        }
        graph.tensor_map.insert(model_proto.graph.output[i].name.as_str(), t);
    }
    let n_init = model_proto.graph.initializer.len();
    for i in 0..n_init
        invariant
            n_init == model_proto.graph.initializer@.len(),
            unique_keys(graph.tensor_map@),
            forall|j: int|
                0 <= j < model_proto.graph.input@.len() ==> has_key(
                    graph.tensor_map@,
                    (#[trigger] model_proto.graph.input@[j]).name@,
                ),
            forall|j: int|
                0 <= j < model_proto.graph.output@.len() ==> has_key(
                    graph.tensor_map@,
                    (#[trigger] model_proto.graph.output@[j]).name@,
                ),
            forall|j: int|
                0 <= j < i ==> has_key(
                    graph.tensor_map@,
                    (#[trigger] model_proto.graph.initializer@[j]).name@,
                ),
            forall|j: int|
                0 <= j < i ==> initializer_ok(#[trigger] model_proto.graph.initializer@[j]),
            graph.op_map@.len() == 0,
            graph.output_tensor_map@.len() == 0,
            graph.optional_output_tensors@.len() == 0,
    {
        let t = match Tensor::from_tensor_proto(&model_proto.graph.initializer[i], false) {
            Ok(t) => t,
            Err(m) => {
                return Err(GosonnxError::Error(m));
            }
        };
        proof {
            crate::store::lemma_upserted(
                graph.tensor_map@,
                model_proto.graph.initializer@[i as int].name@,
                t,
            );
        }
        graph.tensor_map.insert(model_proto.graph.initializer[i].name.as_str(), t);
    }
    let n_vi = model_proto.graph.value_info.len();
    for i in 0..n_vi
        invariant
            n_vi == model_proto.graph.value_info@.len(),
            unique_keys(graph.tensor_map@),
            forall|j: int|
                0 <= j < model_proto.graph.input@.len() ==> has_key(
                    graph.tensor_map@,
                    (#[trigger] model_proto.graph.input@[j]).name@,
                ),
            forall|j: int|
                0 <= j < model_proto.graph.output@.len() ==> has_key(
                    graph.tensor_map@,
                    (#[trigger] model_proto.graph.output@[j]).name@,
                ),
            forall|j: int|
                0 <= j < model_proto.graph.initializer@.len() ==> has_key(
                    graph.tensor_map@,
                    (#[trigger] model_proto.graph.initializer@[j]).name@,
                ),
            forall|j: int|
                0 <= j < i ==> has_key(
                    graph.tensor_map@,
                    (#[trigger] model_proto.graph.value_info@[j]).name@,
                ),
            forall|j: int|
                0 <= j < i ==> value_info_ok(#[trigger] model_proto.graph.value_info@[j]),
            graph.op_map@.len() == 0,
            graph.output_tensor_map@.len() == 0,
            graph.optional_output_tensors@.len() == 0,
    {
        let t = match Tensor::value_from_value_info_proto(&model_proto.graph.value_info[i]) {
            Ok(t) => t,
            Err(m) => {
                return Err(GosonnxError::Error(m));
            }
        };
        proof {
            crate::store::lemma_upserted(
                graph.tensor_map@,
                model_proto.graph.value_info@[i as int].name@,
                t,
            );
        }
        graph.tensor_map.insert(model_proto.graph.value_info[i].name.as_str(), t);
    }
    // The nodes themselves.
    let n_nodes = model_proto.graph.node.len();
    for i in 0..n_nodes
        invariant
            n_nodes == model_proto.graph.node@.len(),
            unique_keys(graph.tensor_map@),
            unique_keys(graph.op_map@),
            forall|j: int|
                0 <= j < model_proto.graph.input@.len() ==> has_key(
                    graph.tensor_map@,
                    (#[trigger] model_proto.graph.input@[j]).name@,
                ),
            forall|j: int|
                0 <= j < model_proto.graph.output@.len() ==> has_key(
                    graph.tensor_map@,
                    (#[trigger] model_proto.graph.output@[j]).name@,
                ),
            forall|j: int|
                0 <= j < model_proto.graph.initializer@.len() ==> has_key(
                    graph.tensor_map@,
                    (#[trigger] model_proto.graph.initializer@[j]).name@,
                ),
            forall|j: int|
                0 <= j < model_proto.graph.value_info@.len() ==> has_key(
                    graph.tensor_map@,
                    (#[trigger] model_proto.graph.value_info@[j]).name@,
                ),
            forall|j: int|
                0 <= j < i ==> has_key(
                    graph.op_map@,
                    (#[trigger] model_proto.graph.node@[j]).name@,
                ),
            forall|j: int|
                0 <= j < i ==> supported_kind((#[trigger] model_proto.graph.node@[j]).op_type@)
                    && required_attrs_ok(model_proto.graph.node@[j]),
            graph.output_tensor_map@.len() == 0,
            graph.optional_output_tensors@.len() == 0,
    {
        let node = &model_proto.graph.node[i];
        let op_type = match OpType::from_node_proto(node) {
            Ok(ot) => ot,
            Err(e) => {
                return Err(e);
            }
        };
        let op = Op {
            op_name: node.name.clone(),
            op_type,
            outputs: copy_strings(&node.output),
            inputs: copy_strings(&node.input),
            prevs: Vec::new(),
            nexts: Vec::new(),
            extra_attr: None,
        };
        proof {
            crate::store::lemma_upserted(
                graph.op_map@,
                model_proto.graph.node@[i as int].name@,
                op,
            );
        }
        let nm = node.name.clone();
        graph.op_map.insert(nm.as_str(), op);
    }
    let ghost pre_ops = graph.op_map@;
    match graph.compile() {
        Ok(()) => {}
        Err(e) => {
            return Err(e);
        }
    }
    proof {
        assert(graph.op_map@.len() == pre_ops.len());
        assert forall|j: int| 0 <= j < model_proto.graph.node@.len() implies has_key(
            graph.op_map@,
            (#[trigger] model_proto.graph.node@[j]).name@,
        ) by {
            crate::store::lemma_find_key_same_keys(
                pre_ops,
                graph.op_map@,
                model_proto.graph.node@[j].name@,
            );
        }
        assert forall|a: int, b: int|
            0 <= a < b < graph.op_map@.len() implies graph.op_map@[a].0 != graph.op_map@[b].0 by {
            assert(graph.op_map@[a].0 == pre_ops[a].0);
            assert(graph.op_map@[b].0 == pre_ops[b].0);
        }
        assert forall|j: int| 0 <= j < old(model_proto).graph.node@.len() implies supported_kind(
            (#[trigger] old(model_proto).graph.node@[j]).op_type@,
        ) && required_attrs_ok(old(model_proto).graph.node@[j]) by {
            assert(model_proto.graph.node@[j].op_type == old(model_proto).graph.node@[j].op_type);
            assert(model_proto.graph.node@[j].attribute == old(
                model_proto,
            ).graph.node@[j].attribute);
            assert(supported_kind(model_proto.graph.node@[j].op_type@));
            assert(required_attrs_ok(model_proto.graph.node@[j]));
        }
        assert(import_ok(old(model_proto).graph));
    }
    Ok(graph)
}

} // verus!
