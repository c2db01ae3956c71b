use gosonnx::errors::GosonnxError;
use gosonnx::graph::{Graph, Op};
use gosonnx::ops::average_pool::AveragePoolOp;
use gosonnx::ops::batch_normalization::BatchNormalizationOp;
use gosonnx::ops::bin_op::BinOpElementwise;
use gosonnx::ops::conv_transpose::ConvTransposeOp;
use gosonnx::ops::global_average_pool::GlobalAveragePoolOp;
use gosonnx::ops::un_op::UnOpElementwise;
use gosonnx::ops::clip::ClipOp;
use gosonnx::ops::concat::ConcatOp;
use gosonnx::ops::flatten::FlattenOp;
use gosonnx::ops::maxpool::MaxPoolOp;
use gosonnx::ops::resize::ResizeOp;
use gosonnx::ops::activation_op::ActivationOp;
use gosonnx::ops::gemm::GemmOp;
use gosonnx::ops::{OpType, ShaderTemplate, TemplateValue};

fn bits(vals: &[f32]) -> Vec<u32> {
    vals.iter().map(|v| v.to_bits()).collect()
}

#[test]
fn template_renders_bound_values() {
    let mut t = ShaderTemplate::new("probe", "{{ a }}|{{ b }}|{{ c }}", "u", "b").unwrap();
    t.push_attr("a", TemplateValue::Int(-7));
    t.push_attr("b", TemplateValue::Text("x".to_string()));
    t.push_attr("c", TemplateValue::Bool(true));
    assert_eq!(t.compile().unwrap(), "-7|x|true");
}

#[test]
fn template_conditional_sections_follow_booleans() {
    let mut t = ShaderTemplate::new(
        "probe",
        "{% if use_bias %}bias{% else %}plain{% endif %}",
        "u",
        "b",
    )
    .unwrap();
    t.push_attr("use_bias", TemplateValue::Bool(false));
    assert_eq!(t.compile().unwrap(), "plain");
    t.push_attr("use_bias", TemplateValue::Bool(true));
    assert_eq!(t.compile().unwrap(), "bias");
}

#[test]
fn template_compile_failure_is_a_shader_compile_error() {
    let t = ShaderTemplate::new("probe", "{{ missing | bad_filter }}", "u", "b").unwrap();
    assert!(matches!(
        t.compile(),
        Err(GosonnxError::ShaderCompileError(_))
    ));
}

#[test]
fn base_templates_can_be_extended() {
    let t = ShaderTemplate::new(
        "probe",
        "{% extends \"_unary_elementwise\" %}{% block body %}tail{% endblock %}",
        "head {% block body %}{% endblock %}",
        "b",
    )
    .unwrap();
    assert_eq!(t.compile().unwrap(), "head tail");
}

fn relu_graph() -> (Graph, Op) {
    let mut g = Graph::new();
    g.new_tensor_f32("X", Some(bits(&[0.5, -1.0, 2.0])), vec![1, 3]).unwrap();
    g.new_tensor_f32("Y", None, vec![1, 3]).unwrap();
    g.new_op(
        vec!["X"],
        vec!["Y"],
        "my_relu_1",
        OpType::Relu {
            attr: ActivationOp::new(vec![]),
        },
    )
    .unwrap();
    g.compile().unwrap();
    let op_name = "my_relu_1".to_string();
    let op = {
        let o = g.op_map.get(&op_name).unwrap();
        Op {
            op_type: OpType::Relu {
                attr: ActivationOp::new(vec![]),
            },
            op_name: o.op_name.clone(),
            prevs: o.prevs.clone(),
            nexts: o.nexts.clone(),
            inputs: o.inputs.clone(),
            outputs: o.outputs.clone(),
            extra_attr: o.extra_attr.clone(),
        }
    };
    (g, op)
}

#[test]
fn unary_compile_binds_types_and_chooses_geometry() {
    let (g, op) = relu_graph();
    let (shader, wg) = op
        .op_type
        .compile("in={{ input_type }} out={{ output_type }}", "u", "b", &op, &g)
        .unwrap();
    assert_eq!(shader, "in=float out=float");
    // ReLU over 3 elements: one workgroup of 256 threads.
    assert_eq!(wg, [1, 1, 1]);
}

#[test]
fn fusion_extras_reach_the_template_context(){
    let (g, mut op) = relu_graph();
    op.extra_attr = Some(vec![("activation".to_string(), "Relu".to_string())]);
    let (shader, _) = op
        .op_type
        .compile("act={{ activation }}", "u", "b", &op, &g)
        .unwrap();
    assert_eq!(shader, "act=Relu");
}

#[test]
fn gemm_compile_binds_extents_and_flags() {
    let mut g = Graph::new();
    g.new_tensor_f32("A", Some(bits(&[1.0, 2.0, 3.0, 4.0])), vec![2, 2]).unwrap();
    g.new_tensor_f32("B", Some(bits(&[1.0, 1.0, 2.0, 2.0])), vec![2, 2]).unwrap();
    g.new_tensor_f32("bias", Some(bits(&[2.0, 3.0])), vec![2, 1]).unwrap();
    g.new_tensor_f32("out", None, vec![2, 2]).unwrap();
    g.new_op(
        vec!["A", "B", "bias"],
        vec!["out"],
        "my_gemm",
        OpType::Gemm {
            attr: GemmOp::new(
                Some("1".to_string()),
                Some("1".to_string()),
                Some(0),
                Some(0),
            ),
        },
    )
    .unwrap();
    g.compile().unwrap();
    let op = g.op_map.get("my_gemm").unwrap();
    let (shader, wg) = op
        .op_type
        .compile(
            "m={{ m }} k={{ k }} n={{ n }} alpha={{ alpha }} bias={{ use_bias }} bh={{ bias_h }} bw={{ bias_w }}",
            "u",
            "b",
            op,
            &g,
        )
        .unwrap();
    assert_eq!(shader, "m=2 k=2 n=2 alpha=1 bias=true bh=2 bw=1");
    assert_eq!(wg, [1, 1, 1]);
}

#[test]
fn gemm_rejects_mismatched_element_types() {
    let mut g = Graph::new();
    g.new_tensor_f32("A", None, vec![2, 2]).unwrap();
    g.new_tensor_i64("B", None, vec![2, 2]).unwrap();
    g.new_tensor_f32("out", None, vec![2, 2]).unwrap();
    g.new_op(
        vec!["A", "B"],
        vec!["out"],
        "bad_gemm",
        OpType::Gemm {
            attr: GemmOp::new(None, None, None, None),
        },
    )
    .unwrap();
    let op = g.op_map.get("bad_gemm").unwrap();
    let r = op.op_type.compile("{{ m }}", "u", "b", op, &g);
    assert!(matches!(
        r,
        Err(GosonnxError::OpsOnIncompatibleTypeError { .. })
    ));
}

#[test]
fn binary_compile_emits_broadcast_data() {
    let mut g = Graph::new();
    g.new_tensor_f32(
        "A",
        Some(bits(&[1.0, 1.0, 2.0, 2.0])),
        vec![2, 2],
    )
    .unwrap();
    g.new_tensor_f32("B", Some(bits(&[10.0, 20.0])), vec![2, 1]).unwrap();
    g.new_tensor_f32("Y", None, vec![2, 2]).unwrap();
    g.new_op(
        vec!["A", "B"],
        vec!["Y"],
        "add",
        OpType::Add {
            attr: BinOpElementwise,
        },
    )
    .unwrap();
    let op = g.op_map.get("add").unwrap();
    // The output shape reads as the right-aligned broadcast of the inputs.
    let (shader, wg) = op
        .op_type
        .compile(
            "cs={{ common_shape }} len={{ common_shape_len }} l={{ left_oneval }} r={{ right_oneval }}",
            "u",
            "b",
            op,
            &g,
        )
        .unwrap();
    assert_eq!(shader, "cs=2,2 len=2 l=false r=false");
    assert_eq!(wg, [1, 1, 1]);
}

#[test]
fn binary_compile_rejects_incompatible_shapes() {
    let mut g = Graph::new();
    g.new_tensor_f32("A", None, vec![3, 3, 2]).unwrap();
    g.new_tensor_f32("B", None, vec![1, 1, 5]).unwrap();
    g.new_tensor_f32("Y", None, vec![3, 3, 2]).unwrap();
    g.new_op(
        vec!["A", "B"],
        vec!["Y"],
        "add",
        OpType::Add {
            attr: BinOpElementwise,
        },
    )
    .unwrap();
    let op = g.op_map.get("add").unwrap();
    let r = op.op_type.compile("x", "u", "b", op, &g);
    assert!(matches!(r, Err(GosonnxError::IncompatibleShape { .. })));
}

#[test]
fn concat_compile_binds_per_input_records() {
    let mut g = Graph::new();
    g.new_tensor_f32("a", Some(bits(&[1.0, 2.0, 3.0, 4.0])), vec![1, 1, 2, 2]).unwrap();
    g.new_tensor_f32("b", Some(bits(&[5.0, 6.0, 7.0, 8.0])), vec![1, 1, 2, 2]).unwrap();
    g.new_tensor_f32("c", Some(bits(&[-1.0, -2.0, -3.0, -4.0])), vec![1, 1, 2, 2]).unwrap();
    g.new_tensor_f32("out", None, vec![1, 1, 6, 2]).unwrap();
    g.new_op(
        vec!["a", "b", "c"],
        vec!["out"],
        "concat",
        OpType::Concat {
            attr: ConcatOp::new(2),
        },
    )
    .unwrap();
    let op = g.op_map.get("concat").unwrap();
    let (shader, wg) = op
        .op_type
        .compile(
            "axis={{ concat_axis }} n={{ n_inputs }} bind={{ output_binding_no }} out={{ output_shape_csv }} strides={{ output_strides_csv }} first={{ input_info_arr.0.shape_csv }}/{{ input_info_arr.0.strides_csv }}",
            "u",
            "b",
            op,
            &g,
        )
        .unwrap();
    assert_eq!(
        shader,
        "axis=2 n=3 bind=3 out=1,1,6,2 strides=12,12,2,1 first=1,1,2,2/4,4,2,1"
    );
    // one thread per output element: 12 elements fit one workgroup
    assert_eq!(wg, [1, 1, 1]);
}

#[test]
fn maxpool_rejects_non_rank_four_input() {
    let mut g = Graph::new();
    g.new_tensor_f32("X", None, vec![2, 2]).unwrap();
    g.new_tensor_f32("Y", None, vec![2, 2]).unwrap();
    g.new_op(
        vec!["X"],
        vec!["Y"],
        "pool",
        OpType::MaxPool {
            attr: MaxPoolOp::new(0, vec![2, 2], vec![0, 0, 0, 0], vec![1, 1]),
        },
    )
    .unwrap();
    let op = g.op_map.get("pool").unwrap();
    let r = op.op_type.compile("x", "u", "b", op, &g);
    assert!(matches!(
        r,
        Err(GosonnxError::InvalidInputDimension {
            expected: 4,
            found: 2
        })
    ));
}

#[test]
fn clip_needs_exactly_three_inputs() {
    let mut g = Graph::new();
    g.new_tensor_f32("X", None, vec![2]).unwrap();
    g.new_tensor_f32("min", None, vec![1]).unwrap();
    g.new_tensor_f32("Y", None, vec![2]).unwrap();
    g.new_op(
        vec!["X", "min"],
        vec!["Y"],
        "my_clip",
        OpType::Clip { attr: ClipOp::new() },
    )
    .unwrap();
    let op = g.op_map.get("my_clip").unwrap();
    let r = op.op_type.compile("x", "u", "b", op, &g);
    assert!(matches!(
        r,
        Err(GosonnxError::InvalidInputNo {
            expected: 3,
            found: 2
        })
    ));
}

#[test]
fn flatten_rejects_negative_axis() {
    let mut g = Graph::new();
    g.new_tensor_f32("X", None, vec![2, 3]).unwrap();
    g.new_tensor_f32("Y", None, vec![2, 3]).unwrap();
    g.new_op(
        vec!["X"],
        vec!["Y"],
        "flatten",
        OpType::Flatten {
            attr: FlattenOp::new(-1),
        },
    )
    .unwrap();
    let op = g.op_map.get("flatten").unwrap();
    assert!(matches!(
        op.op_type.compile("x", "u", "b", op, &g),
        Err(GosonnxError::Error(_))
    ));
}

#[test]
fn resize_distinguishes_scales_from_sizes() {
    let mut g = Graph::new();
    g.new_tensor_f32("X", Some(bits(&[1.0, 2.0, 3.0, 4.0])), vec![1, 1, 2, 2]).unwrap();
    g.new_tensor_f32("roi", Some(vec![]), vec![0]).unwrap();
    g.new_tensor_f32("scales", Some(bits(&[1.0, 1.0, 2.0, 2.0])), vec![4]).unwrap();
    g.new_tensor_f32("Y", None, vec![1, 1, 4, 4]).unwrap();
    g.new_op(
        vec!["X", "roi", "scales"],
        vec!["Y"],
        "resize",
        OpType::Resize {
            attr: ResizeOp::new(
                None,
                None,
                Some("asymmetric".to_string()),
                None,
                None,
                None,
                None,
                Some("nearest".to_string()),
                Some("floor".to_string()),
            ),
        },
    )
    .unwrap();
    let op = g.op_map.get("resize").unwrap();
    let (shader, wg) = op
        .op_type
        .compile(
            "scales={{ scales }} len={{ scales_len }} mode={{ mode }} nm={{ nearest_mode }} axes={{ axes_csv }}",
            "u",
            "b",
            op,
            &g,
        )
        .unwrap();
    assert_eq!(
        shader,
        "scales=1.00,1.00,2.00,2.00 len=4 mode=0 nm=2 axes=0,1,2,3"
    );
    assert_eq!(wg, [1, 1, 1]);

    // an integer third input reads as target sizes instead
    let mut g2 = Graph::new();
    g2.new_tensor_f32("X", None, vec![1, 1, 2, 2]).unwrap();
    g2.new_tensor_f32("roi", Some(vec![]), vec![0]).unwrap();
    g2.new_tensor_i64("sizes", Some(vec![1, 1, 4, 4]), vec![4]).unwrap();
    g2.new_tensor_f32("Y", None, vec![1, 1, 4, 4]).unwrap();
    g2.new_op(
        vec!["X", "roi", "sizes"],
        vec!["Y"],
        "resize",
        OpType::Resize {
            attr: ResizeOp::new(
                None,
                None,
                None,
                None,
                None,
                None,
                None,
                Some("nearest".to_string()),
                None,
            ),
        },
    )
    .unwrap();
    let op2 = g2.op_map.get("resize").unwrap();
    let (shader2, _) = op2
        .op_type
        .compile("sizes={{ sizes }} nm={{ nearest_mode }}", "u", "b", op2, &g2)
        .unwrap();
    assert_eq!(shader2, "sizes=1,1,4,4 nm=0");
}

#[test]
fn resize_rejects_a_double_precision_size_input() {
    let mut g = Graph::new();
    g.new_tensor_f32("X", None, vec![1, 1, 2, 2]).unwrap();
    g.new_tensor_f32("roi", Some(vec![]), vec![0]).unwrap();
    g.tensor_map.insert(
        "third",
        gosonnx::graph::Tensor::F64 {
            values: Some(vec![0]),
            shape: vec![1],
        },
    );
    g.new_tensor_f32("Y", None, vec![1, 1, 4, 4]).unwrap();
    g.new_op(
        vec!["X", "roi", "third"],
        vec!["Y"],
        "resize",
        OpType::Resize {
            attr: ResizeOp::new(
                None,
                None,
                None,
                None,
                None,
                None,
                None,
                Some("nearest".to_string()),
                None,
            ),
        },
    )
    .unwrap();
    let op = g.op_map.get("resize").unwrap();
    assert!(matches!(
        op.op_type.compile("x", "u", "b", op, &g),
        Err(GosonnxError::UnknownTensorType(_))
    ));
}

#[test]
fn unary_record_compiles_like_an_activation() {
    let (g, _) = relu_graph();
    let rec = UnOpElementwise::new(vec![(
        "HardSigmoid_alpha".to_string(),
        "0.5".to_string(),
    )]);
    let op = g.op_map.get("my_relu_1").unwrap();
    let mut t = ShaderTemplate::new(
        "probe",
        "a={{ HardSigmoid_alpha }} in={{ input_type }}",
        "u",
        "b",
    )
    .unwrap();
    rec.compile(op, &mut t, &g).unwrap();
    assert_eq!(t.compile().unwrap(), "a=0.5 in=float");
}

#[test]
fn batch_normalization_compile_checks_the_input_count() {
    let mut g = Graph::new();
    g.new_tensor_f32("X", None, vec![1, 2, 2, 2]).unwrap();
    g.new_tensor_f32("Y", None, vec![1, 2, 2, 2]).unwrap();
    g.new_op(
        vec!["X"],
        vec!["Y"],
        "norm",
        OpType::BatchNormalization {
            attr: BatchNormalizationOp::new(None, None),
        },
    )
    .unwrap();
    let op = g.op_map.get("norm").unwrap();
    assert!(matches!(
        op.op_type.compile("x", "u", "b", op, &g),
        Err(GosonnxError::InvalidInputNo {
            expected: 5,
            found: 1
        })
    ));
}

#[test]
fn batch_normalization_binds_epsilon_and_types() {
    let mut g = Graph::new();
    for name in ["X", "Y"] {
        g.new_tensor_f32(name, None, vec![1, 2, 2, 2]).unwrap();
    }
    for name in ["scale", "bias", "mean", "var"] {
        g.new_tensor_f32(name, None, vec![2]).unwrap();
    }
    g.new_op(
        vec!["X", "scale", "bias", "mean", "var"],
        vec!["Y"],
        "norm",
        OpType::BatchNormalization {
            attr: BatchNormalizationOp::new(None, None),
        },
    )
    .unwrap();
    let op = g.op_map.get("norm").unwrap();
    let (shader, wg) = op
        .op_type
        .compile(
            "eps={{ epsilon }} s={{ scale_type }} out={{ out_dim }}",
            "u",
            "b",
            op,
            &g,
        )
        .unwrap();
    assert_eq!(shader, "eps=0.00001 s=float out=1,2,2,2");
    assert_eq!(wg, [1, 1, 1]);
}

#[test]
fn average_pool_needs_a_kernel_shape() {
    let mut g = Graph::new();
    g.new_tensor_f32("X", None, vec![1, 1, 4, 4]).unwrap();
    g.new_tensor_f32("Y", None, vec![1, 1, 2, 2]).unwrap();
    g.new_op(
        vec!["X"],
        vec!["Y"],
        "avg_pool",
        OpType::AveragePool {
            attr: AveragePoolOp::new(None, None, None, None, None, None),
        },
    )
    .unwrap();
    let op = g.op_map.get("avg_pool").unwrap();
    assert!(matches!(
        op.op_type.compile("x", "u", "b", op, &g),
        Err(GosonnxError::AttributeNotFound(_))
    ));
}

#[test]
fn average_pool_defaults_reach_the_template() {
    let mut g = Graph::new();
    g.new_tensor_f32("X", None, vec![1, 1, 4, 4]).unwrap();
    g.new_tensor_f32("Y", None, vec![1, 1, 2, 2]).unwrap();
    g.new_op(
        vec!["X"],
        vec!["Y"],
        "avg_pool",
        OpType::AveragePool {
            attr: AveragePoolOp::new(None, None, None, Some(vec![2, 2]), None, Some(vec![2, 2])),
        },
    )
    .unwrap();
    let op = g.op_map.get("avg_pool").unwrap();
    let (shader, wg) = op
        .op_type
        .compile(
            "pad={{ auto_pad }} cm={{ ceil_mode }} dil={{ dilations }} k={{ kernel_shape }} strides={{ strides }}",
            "u",
            "b",
            op,
            &g,
        )
        .unwrap();
    assert_eq!(shader, "pad=NOTSET cm=0 dil=1,1,1,1 k=2,2 strides=2,2");
    assert_eq!(wg, [1, 1, 1]);
}

#[test]
fn conv_transpose_restricts_the_group() {
    let mut g = Graph::new();
    g.new_tensor_f32("X", None, vec![1, 1, 2, 2]).unwrap();
    g.new_tensor_f32("W", None, vec![1, 1, 2, 2]).unwrap();
    g.new_tensor_f32("Y", None, vec![1, 1, 3, 3]).unwrap();
    g.new_op(
        vec!["X", "W"],
        vec!["Y"],
        "my_conv",
        OpType::ConvTranspose {
            attr: ConvTransposeOp::new(
                None,
                Some(2),
                Some(vec![2, 2]),
                None,
                None,
                None,
                None,
            ),
        },
    )
    .unwrap();
    let op = g.op_map.get("my_conv").unwrap();
    assert!(matches!(
        op.op_type.compile("x", "u", "b", op, &g),
        Err(GosonnxError::Error(_))
    ));
}

#[test]
fn conv_binds_shapes_and_channels() {
    let mut g = Graph::new();
    g.new_tensor_f32("X", None, vec![1, 2, 3, 3]).unwrap();
    g.new_tensor_f32("W", None, vec![2, 2, 2, 2]).unwrap();
    g.new_tensor_f32("b", None, vec![2]).unwrap();
    g.new_tensor_f32("Y", None, vec![1, 2, 2, 2]).unwrap();
    g.new_op(
        vec!["X", "W", "b"],
        vec!["Y"],
        "my_conv",
        OpType::Conv {
            attr: gosonnx::ops::conv::ConvOp::new(
                vec![1, 1],
                1,
                vec![2, 2],
                vec![0, 0, 0, 0],
                vec![1, 1],
            ),
        },
    )
    .unwrap();
    let op = g.op_map.get("my_conv").unwrap();
    let (shader, wg) = op
        .op_type
        .compile(
            "in={{ in_dim }} w={{ weight_dim }} out={{ out_dim }} oc={{ output_channels }} bias={{ use_bias }} bt={{ B_type }}",
            "u",
            "b",
            op,
            &g,
        )
        .unwrap();
    assert_eq!(shader, "in=1,2,3,3 w=2,2,2,2 out=1,2,2,2 oc=2 bias=true bt=float");
    // spatial 2x2 fits one 16x16 workgroup; one layer per batch-channel
    assert_eq!(wg, [1, 1, 2]);
}

#[test]
fn global_average_pool_checks_the_rank() {
    let mut g = Graph::new();
    g.new_tensor_f32("X", None, vec![4, 4]).unwrap();
    g.new_tensor_f32("Y", None, vec![4, 1]).unwrap();
    g.new_op(
        vec!["X"],
        vec!["Y"],
        "avg_pool",
        OpType::GlobalAveragePool {
            attr: GlobalAveragePoolOp::new(),
        },
    )
    .unwrap();
    let op = g.op_map.get("avg_pool").unwrap();
    assert!(matches!(
        op.op_type.compile("x", "u", "b", op, &g),
        Err(GosonnxError::InvalidInputDimension {
            expected: 4,
            found: 2
        })
    ));
}
