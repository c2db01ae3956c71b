use gosonnx::errors::GosonnxError;
use gosonnx::graph::{run, Graph, Op, Tensor, TensorType};
use gosonnx::ops::activation_op::ActivationOp;
use gosonnx::ops::gemm::GemmOp;
use gosonnx::ops::OpType;

fn bits(vals: &[f32]) -> Vec<u32> {
    vals.iter().map(|v| v.to_bits()).collect()
}

#[test]
fn tensor_creation_validates_element_count() {
    let mut g = Graph::new();
    // product(shape) == len(values): accepted.
    assert!(g
        .new_tensor_f32("a", Some(bits(&[1.0, 2.0, 3.0, 4.0])), vec![2, 2])
        .is_ok());
    // product(shape) != len(values): rejected.
    let r = g.new_tensor_f32("b", Some(bits(&[1.0, 2.0, 3.0])), vec![2, 2]);
    assert!(matches!(r, Err(GosonnxError::TensorCreateError(_))));
    // absent values are always accepted.
    assert!(g.new_tensor_f32("c", None, vec![7, 9]).is_ok());
    // a zero-sized shape takes exactly no values.
    assert!(g.new_tensor_i64("d", Some(vec![]), vec![0, 3]).is_ok());
    assert!(g.new_tensor_i64("e", Some(vec![1]), vec![0, 3]).is_err());
}

#[test]
fn set_tensor_preserves_shape() {
    let mut g = Graph::new();
    g.new_tensor_f32("x", Some(bits(&[1.0, 2.0])), vec![2]).unwrap();
    let before = g.tensor_map.get("x").unwrap().shape();
    g.set_tensor(
        "x",
        Tensor::F32 {
            values: Some(bits(&[5.0, 6.0])),
            shape: vec![2],
        },
    );
    let after = g.tensor_map.get("x").unwrap().shape();
    assert_eq!(before, after);
    if let Tensor::F32 { values: Some(v), .. } = g.tensor_map.get("x").unwrap() {
        assert_eq!(v, &bits(&[5.0, 6.0]));
    } else {
        panic!("the replaced tensor should hold 32-bit float values");
    }
}

#[test]
fn optional_output_needs_an_existing_tensor() {
    let mut g = Graph::new();
    let r = g.add_optional_output("missing");
    assert!(matches!(r, Err(GosonnxError::TensorNotFound(_))));
    g.new_tensor_f32("y", None, vec![1]).unwrap();
    assert!(g.add_optional_output("y").is_ok());
    assert_eq!(g.optional_output_tensors, vec!["y".to_string()]);
}

#[test]
fn tensor_accessors() {
    let t = Tensor::F32 {
        values: None,
        shape: vec![1, 3],
    };
    assert_eq!(t.shape(), vec![1, 3]);
    assert!(matches!(t.tensor_type(), TensorType::F32));
    assert_eq!(t.type_glsl(), "float");
    let t64 = Tensor::F64 {
        values: None,
        shape: vec![2],
    };
    assert_eq!(t64.type_glsl(), "double");
    let ti = Tensor::I64 {
        values: None,
        shape: vec![2],
    };
    assert_eq!(ti.type_glsl(), "int");
    let o = Op::new();
    assert!(matches!(o.op_type, OpType::Unknown));
    assert!(o.inputs.is_empty() && o.outputs.is_empty());
    run();
}

fn two_op_graph() -> Graph {
    let mut g = Graph::new();
    g.new_tensor_f32("X", Some(bits(&[-1.0, -1.0, 1.0, 1.0])), vec![2, 2])
        .unwrap();
    g.new_tensor_f32("W", Some(bits(&[1.0, 1.0])), vec![2, 1]).unwrap();
    g.new_tensor_f32("gemm_out", None, vec![2, 1]).unwrap();
    g.new_tensor_f32("relu_out", None, vec![2, 1]).unwrap();
    g.new_op(
        vec!["X", "W"],
        vec!["gemm_out"],
        "gemm",
        OpType::Gemm {
            attr: GemmOp::new(None, None, None, None),
        },
    )
    .unwrap();
    g.new_op(
        vec!["gemm_out"],
        vec!["relu_out"],
        "relu",
        OpType::Relu {
            attr: ActivationOp::new(vec![]),
        },
    )
    .unwrap();
    g
}

#[test]
fn edge_inference_connects_producer_to_consumer() {
    let mut g = two_op_graph();
    g.compile().unwrap();
    let gemm = g.op_map.get("gemm").unwrap();
    let relu = g.op_map.get("relu").unwrap();
    // Every inferred edge shares a tensor name and no self-edges exist.
    assert_eq!(gemm.nexts, vec!["relu".to_string()]);
    assert_eq!(gemm.prevs, Vec::<String>::new());
    assert_eq!(relu.prevs, vec!["gemm".to_string()]);
    assert_eq!(relu.nexts, Vec::<String>::new());
    assert!(gemm.outputs.iter().any(|o| relu.inputs.contains(o)));
    assert!(!gemm.nexts.contains(&"gemm".to_string()));
    assert!(!relu.nexts.contains(&"relu".to_string()));
}

#[test]
fn edge_inference_is_idempotent() {
    let mut g = two_op_graph();
    g.compile().unwrap();
    let nexts_once = g.op_map.get("gemm").unwrap().nexts.clone();
    let prevs_once = g.op_map.get("relu").unwrap().prevs.clone();
    g.compile().unwrap();
    assert_eq!(g.op_map.get("gemm").unwrap().nexts, nexts_once);
    assert_eq!(g.op_map.get("relu").unwrap().prevs, prevs_once);
}

#[test]
fn topological_sort_orders_predecessors_first() {
    let mut g = two_op_graph();
    g.compile().unwrap();
    let sorted = gosonnx::gpu::topo(&g.op_map);
    assert_eq!(sorted, vec!["gemm".to_string(), "relu".to_string()]);
    // every predecessor index precedes its successor index
    for (i, name) in sorted.iter().enumerate() {
        let op = g.op_map.get(name).unwrap();
        for p in &op.prevs {
            if let Some(j) = sorted.iter().position(|s| s == p) {
                assert!(j < i);
            }
        }
    }
}

#[test]
fn topological_sort_on_sorted_store_is_identity() {
    // Register the operators against their data order, sort, rebuild the
    // store in the sorted order, and sort again: the second sort is the
    // identity, and the result holds no duplicates.
    let mut g = Graph::new();
    g.new_tensor_f32("X", None, vec![2, 2]).unwrap();
    g.new_tensor_f32("W", None, vec![2, 1]).unwrap();
    g.new_tensor_f32("gemm_out", None, vec![2, 1]).unwrap();
    g.new_tensor_f32("relu_out", None, vec![2, 1]).unwrap();
    g.new_op(
        vec!["gemm_out"],
        vec!["relu_out"],
        "relu",
        OpType::Relu {
            attr: ActivationOp::new(vec![]),
        },
    )
    .unwrap();
    g.new_op(
        vec!["X", "W"],
        vec!["gemm_out"],
        "gemm",
        OpType::Gemm {
            attr: GemmOp::new(None, None, None, None),
        },
    )
    .unwrap();
    g.compile().unwrap();
    let sorted = gosonnx::gpu::topo(&g.op_map);
    assert_eq!(sorted, vec!["gemm".to_string(), "relu".to_string()]);

    let mut g2 = Graph::new();
    g2.new_tensor_f32("X", None, vec![2, 2]).unwrap();
    g2.new_tensor_f32("W", None, vec![2, 1]).unwrap();
    g2.new_tensor_f32("gemm_out", None, vec![2, 1]).unwrap();
    g2.new_tensor_f32("relu_out", None, vec![2, 1]).unwrap();
    for name in &sorted {
        if name == "gemm" {
            g2.new_op(
                vec!["X", "W"],
                vec!["gemm_out"],
                "gemm",
                OpType::Gemm {
                    attr: GemmOp::new(None, None, None, None),
                },
            )
            .unwrap();
        } else {
            g2.new_op(
                vec!["gemm_out"],
                vec!["relu_out"],
                "relu",
                OpType::Relu {
                    attr: ActivationOp::new(vec![]),
                },
            )
            .unwrap();
        }
    }
    g2.compile().unwrap();
    let again = gosonnx::gpu::topo(&g2.op_map);
    assert_eq!(again, sorted);
    let mut dedup = again.clone();
    dedup.dedup();
    assert_eq!(dedup, again);
}
