use gosonnx::errors::GosonnxError;
use gosonnx::graph::Tensor;
use gosonnx::onnxparser::get_tensor_proto;
use gosonnx::onnx::{
    AttributeProto, GraphProto, ModelProto, NodeProto, TensorProto, TensorTypeProto,
    ValueInfoProto,
};
use gosonnx::onnxparser::parse_model_proto;
use gosonnx::ops::OpType;

fn value_info(name: &str, dims: Vec<i64>) -> ValueInfoProto {
    ValueInfoProto {
        name: name.to_string(),
        field_type: Some(TensorTypeProto {
            elem_type: 1,
            dims,
        }),
    }
}

fn relu_node(name: &str) -> NodeProto {
    NodeProto {
        name: name.to_string(),
        op_type: "Relu".to_string(),
        input: vec!["X".to_string()],
        output: vec!["Y".to_string()],
        attribute: vec![],
    }
}

fn small_model() -> ModelProto {
    ModelProto {
        graph: GraphProto {
            node: vec![relu_node("my_relu")],
            input: vec![value_info("X", vec![1, 3])],
            output: vec![value_info("Y", vec![1, 3])],
            initializer: vec![TensorProto {
                name: "W".to_string(),
                data_type: 1,
                dims: vec![2],
                raw_data: vec![0, 0, 128, 63, 0, 0, 0, 64],
            }],
            value_info: vec![],
        },
    }
}

#[test]
fn importing_builds_tensors_and_operators() {
    let mut model = small_model();
    let graph = parse_model_proto(&mut model).unwrap();
    assert_eq!(graph.tensor_map.len(), 3);
    assert_eq!(graph.op_map.len(), 1);
    let w = graph.tensor_map.get("W").unwrap();
    if let gosonnx::graph::Tensor::F32 {
        values: Some(v), ..
    } = w
    {
        // raw little-endian bytes read back as the bit patterns of 1.0 and 2.0
        assert_eq!(v, &vec![1.0f32.to_bits(), 2.0f32.to_bits()]);
    } else {
        panic!("the initializer should hold 32-bit float values");
    }
    let op = graph.op_map.get("my_relu").unwrap();
    assert!(matches!(op.op_type, OpType::Relu { .. }));
    assert_eq!(op.inputs, vec!["X".to_string()]);
    assert_eq!(op.outputs, vec!["Y".to_string()]);
}

#[test]
fn unnamed_nodes_receive_numbered_names() {
    let mut model = small_model();
    model.graph.node = vec![relu_node(""), relu_node("named"), relu_node("")];
    let graph = parse_model_proto(&mut model).unwrap();
    assert_eq!(model.graph.node[0].name, "unnamed_1");
    assert_eq!(model.graph.node[1].name, "named");
    assert_eq!(model.graph.node[2].name, "unnamed_2");
    assert!(graph.op_map.get("unnamed_1").is_some());
    assert!(graph.op_map.get("unnamed_2").is_some());
}

#[test]
fn unsupported_kinds_fail_the_import() {
    let mut model = small_model();
    model.graph.node[0].op_type = "Softmax".to_string();
    let r = parse_model_proto(&mut model);
    assert!(matches!(r, Err(GosonnxError::UnsupportedONNXOps(_))));
}

#[test]
fn kind_reading_checks_required_attributes() {
    let concat = NodeProto {
        name: "c".to_string(),
        op_type: "Concat".to_string(),
        input: vec![],
        output: vec![],
        attribute: vec![],
    };
    assert!(matches!(
        OpType::from_node_proto(&concat),
        Err(GosonnxError::AttributeNotFound(_))
    ));
    let concat_ok = NodeProto {
        attribute: vec![AttributeProto {
            name: "axis".to_string(),
            i: 2,
            ints: vec![],
            f: String::new(),
            s: String::new(),
        }],
        ..concat
    };
    match OpType::from_node_proto(&concat_ok).unwrap() {
        OpType::Concat { attr } => assert_eq!(attr.axis, 2),
        other => panic!("expected a concatenation, found {:?}", other),
    }
}

#[test]
fn gemm_attributes_ride_in_textual_form() {
    let gemm = NodeProto {
        name: "g".to_string(),
        op_type: "Gemm".to_string(),
        input: vec![],
        output: vec![],
        attribute: vec![
            AttributeProto {
                name: "alpha".to_string(),
                i: 0,
                ints: vec![],
                f: "1".to_string(),
                s: String::new(),
            },
            AttributeProto {
                name: "transB".to_string(),
                i: 1,
                ints: vec![],
                f: String::new(),
                s: String::new(),
            },
        ],
    };
    match OpType::from_node_proto(&gemm).unwrap() {
        OpType::Gemm { attr } => {
            assert_eq!(attr.alpha, Some("1".to_string()));
            assert_eq!(attr.beta, None);
            assert_eq!(attr.trans_b, Some(1));
            assert!(attr.activation.is_none());
        }
        other => panic!("expected a matrix multiply, found {:?}", other),
    }
}

#[test]
fn import_round_trip_reproduces_the_stores() {
    // Build a model, import it, write the stores back into a fresh model,
    // and import again: names, kinds and shapes come back unchanged.
    let mut model = small_model();
    let graph = parse_model_proto(&mut model).unwrap();

    let mut nodes = Vec::new();
    for name in ["my_relu"] {
        let op = graph.op_map.get(name).unwrap();
        nodes.push(NodeProto {
            name: op.op_name.clone(),
            op_type: op.op_type.to_string(),
            input: op.inputs.clone(),
            output: op.outputs.clone(),
            attribute: vec![],
        });
    }
    let rebuilt_model = ModelProto {
        graph: GraphProto {
            node: nodes,
            input: vec![value_info(
                "X",
                graph.tensor_map.get("X").unwrap().shape(),
            )],
            output: vec![value_info(
                "Y",
                graph.tensor_map.get("Y").unwrap().shape(),
            )],
            initializer: vec![TensorProto {
                name: "W".to_string(),
                data_type: 1,
                dims: graph.tensor_map.get("W").unwrap().shape(),
                raw_data: vec![0, 0, 128, 63, 0, 0, 0, 64],
            }],
            value_info: vec![],
        },
    };
    let mut rebuilt_model = rebuilt_model;
    let graph2 = parse_model_proto(&mut rebuilt_model).unwrap();

    assert_eq!(graph2.tensor_map.len(), graph.tensor_map.len());
    assert_eq!(graph2.op_map.len(), graph.op_map.len());
    for name in ["X", "Y", "W"] {
        assert_eq!(
            graph2.tensor_map.get(name).unwrap().shape(),
            graph.tensor_map.get(name).unwrap().shape()
        );
    }
    let a = graph.op_map.get("my_relu").unwrap();
    let b = graph2.op_map.get("my_relu").unwrap();
    assert_eq!(a.inputs, b.inputs);
    assert_eq!(a.outputs, b.outputs);
    assert_eq!(a.op_type.to_string(), b.op_type.to_string());
}

#[test]
fn initializer_lookup_by_name() {
    let model = small_model();
    let t = get_tensor_proto("W", &model).unwrap();
    assert_eq!(t.dims, vec![2]);
    assert!(matches!(
        get_tensor_proto("missing", &model),
        Err(GosonnxError::Error(_))
    ));
}

#[test]
fn initializer_reading_checks_the_type_code() {
    let bad = TensorProto {
        name: "W".to_string(),
        data_type: 7,
        dims: vec![1],
        raw_data: vec![],
    };
    assert!(Tensor::from_tensor_proto(&bad, false).is_err());
    let zero = TensorProto {
        name: "Z".to_string(),
        data_type: 1,
        dims: vec![0],
        raw_data: vec![],
    };
    // a zero-sized initializer reads as an empty value buffer, not as
    // absent values
    match Tensor::from_tensor_proto(&zero, false).unwrap() {
        Tensor::F32 { values, shape } => {
            assert_eq!(values, Some(vec![]));
            assert_eq!(shape, vec![0]);
        }
        other => panic!("expected a 32-bit float tensor, found {:?}", other),
    }
}

#[test]
fn value_info_needs_the_float_type_code() {
    let vi = ValueInfoProto {
        name: "v".to_string(),
        field_type: Some(TensorTypeProto {
            elem_type: 11,
            dims: vec![1],
        }),
    };
    assert!(Tensor::value_from_value_info_proto(&vi).is_err());
    let missing = ValueInfoProto {
        name: "v".to_string(),
        field_type: None,
    };
    assert!(Tensor::value_from_value_info_proto(&missing).is_err());
}

#[test]
fn a_missing_required_attribute_keeps_its_error_kind() {
    let mut model = small_model();
    model.graph.node[0] = NodeProto {
        name: "c".to_string(),
        op_type: "Concat".to_string(),
        input: vec!["X".to_string()],
        output: vec!["Y".to_string()],
        attribute: vec![],
    };
    // the importer surfaces the attribute failure rather than recasting
    // it as an unsupported kind
    let r = parse_model_proto(&mut model);
    assert!(matches!(r, Err(GosonnxError::AttributeNotFound(_))));
}
