use gosonnx::graph::Graph;
use gosonnx::graph_optim::Optimizer;
use gosonnx::ops::activation_op::ActivationOp;
use gosonnx::ops::conv::ConvOp;
use gosonnx::ops::gemm::GemmOp;
use gosonnx::ops::OpType;

fn bits(vals: &[f32]) -> Vec<u32> {
    vals.iter().map(|v| v.to_bits()).collect()
}

#[test]
fn gemm_relu_fuses_into_one_operator() {
    let mut graph = Graph::new();
    graph
        .new_tensor_f32("X", Some(bits(&[-1.0, -1.0, 1.0, 1.0])), vec![2, 2])
        .unwrap();
    graph.new_tensor_f32("W", Some(bits(&[1.0, 1.0])), vec![2, 1]).unwrap();
    graph.new_tensor_f32("gemm_out", None, vec![2, 1]).unwrap();
    graph.new_tensor_f32("relu_out", None, vec![2, 1]).unwrap();
    graph
        .new_op(
            vec!["X", "W"],
            vec!["gemm_out"],
            "gemm",
            OpType::Gemm {
                attr: GemmOp::new(None, None, None, None),
            },
        )
        .unwrap();
    graph
        .new_op(
            vec!["gemm_out"],
            vec!["relu_out"],
            "relu",
            OpType::Relu {
                attr: ActivationOp::new(vec![]),
            },
        )
        .unwrap();

    let graph = Optimizer::new().optimize(graph).unwrap();

    // the activation is merged into the producer
    assert_eq!(graph.op_map.len(), 1);
    let gemm = graph.op_map.get("gemm").unwrap();
    assert_eq!(
        gemm.extra_attr,
        Some(vec![("activation".to_string(), "Relu".to_string())])
    );
    // the producer takes over the activation's output name
    assert_eq!(gemm.outputs, vec!["relu_out".to_string()]);
}

#[test]
fn hard_sigmoid_fusion_carries_its_scalars() {
    let mut graph = Graph::new();
    graph
        .new_tensor_f32("X", Some(bits(&[-1.0, -1.0, 1.0, 1.0])), vec![2, 2])
        .unwrap();
    graph.new_tensor_f32("W", Some(bits(&[1.0, 1.0])), vec![2, 1]).unwrap();
    graph.new_tensor_f32("gemm_out", None, vec![2, 1]).unwrap();
    graph.new_tensor_f32("hs_out", None, vec![2, 1]).unwrap();
    graph
        .new_op(
            vec!["X", "W"],
            vec!["gemm_out"],
            "gemm",
            OpType::Gemm {
                attr: GemmOp::new(None, None, None, None),
            },
        )
        .unwrap();
    graph
        .new_op(
            vec!["gemm_out"],
            vec!["hs_out"],
            "hs",
            OpType::HardSigmoid {
                attr: ActivationOp::new(vec![
                    ("HardSigmoid_alpha".to_string(), "0.5".to_string()),
                    ("HardSigmoid_beta".to_string(), "0.6".to_string()),
                ]),
            },
        )
        .unwrap();

    let graph = Optimizer::new().optimize(graph).unwrap();

    assert_eq!(graph.op_map.len(), 1);
    let gemm = graph.op_map.get("gemm").unwrap();
    assert_eq!(
        gemm.extra_attr,
        Some(vec![
            ("activation".to_string(), "HardSigmoid".to_string()),
            ("HardSigmoid_alpha".to_string(), "0.5".to_string()),
            ("HardSigmoid_beta".to_string(), "0.6".to_string()),
        ])
    );
    assert_eq!(gemm.outputs, vec!["hs_out".to_string()]);
}

#[test]
fn activation_after_conv_fuses() {
    let mut graph = Graph::new();
    graph
        .new_tensor_f32(
            "X",
            Some(bits(&[
                1.0, 2.0, 3.0, 4.0, 5.0, 6.0, 7.0, 8.0, 9.0, -1.0, -2.0, -3.0, -4.0, -5.0, -6.0,
                -7.0, -8.0, -9.0,
            ])),
            vec![1, 2, 3, 3],
        )
        .unwrap();
    graph
        .new_tensor_f32(
            "W",
            Some(bits(&[
                0.0, 1.0, -1.0, 0.0, 1.0, 0.0, 0.0, -1.0, -1.0, 0.0, 0.0, 1.0, 0.0, -1.0, 1.0, 0.0,
            ])),
            vec![2, 2, 2, 2],
        )
        .unwrap();
    graph.new_tensor_f32("b", Some(bits(&[1.0, -1.0])), vec![2]).unwrap();
    graph.new_tensor_f32("Y", None, vec![1, 2, 2, 2]).unwrap();
    graph.new_tensor_f32("Y_sig", None, vec![1, 2, 2, 2]).unwrap();
    graph
        .new_op(
            vec!["X", "W", "b"],
            vec!["Y"],
            "my_conv",
            OpType::Conv {
                attr: ConvOp::new(vec![1, 1], 1, vec![2, 2], vec![0, 0, 0, 0], vec![1, 1]),
            },
        )
        .unwrap();
    graph
        .new_op(
            vec!["Y"],
            vec!["Y_sig"],
            "sig",
            OpType::Sigmoid {
                attr: ActivationOp::new(vec![]),
            },
        )
        .unwrap();

    let graph = Optimizer::new().optimize(graph).unwrap();
    assert_eq!(graph.op_map.len(), 1);
    let conv = graph.op_map.get("my_conv").unwrap();
    assert_eq!(
        conv.extra_attr,
        Some(vec![("activation".to_string(), "Sigmoid".to_string())])
    );
    assert_eq!(conv.outputs, vec!["Y_sig".to_string()]);
}

#[test]
fn activation_without_activable_producer_stays() {
    let mut graph = Graph::new();
    graph.new_tensor_f32("A", Some(bits(&[1.0, -2.0])), vec![2]).unwrap();
    graph.new_tensor_f32("B", None, vec![2]).unwrap();
    graph.new_tensor_f32("C", None, vec![2]).unwrap();
    graph
        .new_op(
            vec!["A"],
            vec!["B"],
            "first_relu",
            OpType::Relu {
                attr: ActivationOp::new(vec![]),
            },
        )
        .unwrap();
    graph
        .new_op(
            vec!["B"],
            vec!["C"],
            "second_relu",
            OpType::Relu {
                attr: ActivationOp::new(vec![]),
            },
        )
        .unwrap();
    // an activation is no fusion anchor, so both operators survive
    let graph = Optimizer::new().optimize(graph).unwrap();
    assert_eq!(graph.op_map.len(), 2);
    assert!(graph.op_map.get("first_relu").unwrap().extra_attr.is_none());
}

#[test]
fn node_removal_rewires_neighbours() {
    let mut graph = Graph::new();
    graph.new_tensor_f32("a", None, vec![2, 2]).unwrap();
    graph.new_tensor_f32("b", None, vec![2, 2]).unwrap();
    graph.new_tensor_f32("c", None, vec![2, 2]).unwrap();
    graph.new_tensor_f32("d", None, vec![2, 2]).unwrap();
    graph
        .new_op(
            vec!["a", "a"],
            vec!["b"],
            "producer",
            OpType::Gemm {
                attr: GemmOp::new(None, None, None, None),
            },
        )
        .unwrap();
    graph
        .new_op(
            vec!["b"],
            vec!["c"],
            "middle",
            OpType::Relu {
                attr: ActivationOp::new(vec![]),
            },
        )
        .unwrap();
    graph
        .new_op(
            vec!["c"],
            vec!["d"],
            "consumer",
            OpType::Relu {
                attr: ActivationOp::new(vec![]),
            },
        )
        .unwrap();
    graph.compile().unwrap();
    graph.remove_node_and_connect_neighbors("middle").unwrap();
    assert_eq!(graph.op_map.len(), 2);
    let producer = graph.op_map.get("producer").unwrap();
    let consumer = graph.op_map.get("consumer").unwrap();
    // the producer takes over the removed operator's successors and outputs
    assert_eq!(producer.nexts, vec!["consumer".to_string()]);
    assert_eq!(producer.outputs, vec!["c".to_string()]);
    // the consumer's predecessor slot now reads the producer
    assert_eq!(consumer.prevs, vec!["producer".to_string()]);
}
