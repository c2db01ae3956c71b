use gosonnx::gpu::ShaderDir;
use gosonnx::graph::Graph;
use gosonnx::ops::activation_op::ActivationOp;
use gosonnx::ops::OpType;
use gosonnx::store::Store;

fn bits(vals: &[f32]) -> Vec<u32> {
    vals.iter().map(|v| v.to_bits()).collect()
}

fn relu_dir() -> ShaderDir {
    let mut files: Store<String> = Store::new();
    files.insert("_unary_elementwise.glsl", "unary base".to_string());
    files.insert("_binary_elementwise.glsl", "binary base".to_string());
    files.insert(
        "Relu.glsl",
        "relu {{ input_type }} -> {{ output_type }}".to_string(),
    );
    ShaderDir { files }
}

fn relu_graph() -> Graph {
    let mut g = Graph::new();
    g.new_tensor_f32("X", Some(bits(&[0.5, -1.0, 2.0])), vec![1, 3]).unwrap();
    g.new_tensor_f32("Y", None, vec![1, 3]).unwrap();
    g.new_op(
        vec!["X"],
        vec!["Y"],
        "my_relu_1",
        OpType::Relu {
            attr: ActivationOp::new(vec![]),
        },
    )
    .unwrap();
    g
}

#[test]
fn plan_lays_out_buffers_passes_and_readback() {
    let mut g = relu_graph();
    let plan = g.plan(&relu_dir()).unwrap();

    // one storage buffer per tensor, in store order
    assert_eq!(plan.storage.len(), 2);
    assert_eq!(plan.storage[0].name, "X");
    let expected: Vec<u8> = bits(&[0.5, -1.0, 2.0])
        .iter()
        .flat_map(|w| w.to_le_bytes())
        .collect();
    assert_eq!(plan.storage[0].data, expected);
    // a value-less tensor gets zeroed backing of its element count
    assert_eq!(plan.storage[1].name, "Y");
    assert_eq!(plan.storage[1].data, vec![0u8; 12]);

    // the single terminal output is read back through a staging buffer
    assert_eq!(plan.outputs, vec!["Y".to_string()]);
    assert_eq!(plan.staging.len(), 1);
    assert_eq!(plan.staging[0].name, "Y");
    assert_eq!(plan.staging[0].size, 12);

    // one pass, with inputs bound before outputs and the rendered shader
    assert_eq!(plan.passes.len(), 1);
    assert_eq!(plan.passes[0].op_name, "my_relu_1");
    assert_eq!(
        plan.passes[0].buffers,
        vec!["X".to_string(), "Y".to_string()]
    );
    assert_eq!(plan.passes[0].shader_source, "relu float -> float");
    assert_eq!(plan.passes[0].workgroups, [1, 1, 1]);
}

#[test]
fn planning_twice_gives_the_same_plan() {
    let mut g1 = relu_graph();
    let mut g2 = relu_graph();
    let p1 = g1.plan(&relu_dir()).unwrap();
    let p2 = g2.plan(&relu_dir()).unwrap();
    assert_eq!(p1.outputs, p2.outputs);
    assert_eq!(p1.storage.len(), p2.storage.len());
    for (a, b) in p1.storage.iter().zip(p2.storage.iter()) {
        assert_eq!(a.name, b.name);
        assert_eq!(a.data, b.data);
    }
    for (a, b) in p1.passes.iter().zip(p2.passes.iter()) {
        assert_eq!(a.op_name, b.op_name);
        assert_eq!(a.shader_source, b.shader_source);
        assert_eq!(a.buffers, b.buffers);
        assert_eq!(a.workgroups, b.workgroups);
    }
}

#[test]
fn empty_tensor_gets_a_placeholder_buffer() {
    let mut g = relu_graph();
    g.new_tensor_f32("empty", Some(vec![]), vec![0]).unwrap();
    let plan = g.plan(&relu_dir()).unwrap();
    let buf = plan.storage.iter().find(|b| b.name == "empty").unwrap();
    // the device refuses zero-sized bindings: four placeholder bytes
    assert_eq!(buf.data.len(), 4);
}

#[test]
fn marked_tensors_join_the_readback_set() {
    let mut g = relu_graph();
    g.add_optional_output("X").unwrap();
    let plan = g.plan(&relu_dir()).unwrap();
    assert_eq!(plan.outputs, vec!["Y".to_string(), "X".to_string()]);
    assert_eq!(plan.staging.len(), 2);
}

#[test]
fn readback_decodes_into_the_output_map() {
    let mut g = relu_graph();
    // the device would hand back these bytes for Y = [0.5, 0.0, 2.0]
    let bytes: Vec<u8> = bits(&[0.5, 0.0, 2.0])
        .iter()
        .flat_map(|w| w.to_le_bytes())
        .collect();
    g.store_output("Y", &bytes).unwrap();
    let out = g.get_output("Y").unwrap();
    if let gosonnx::graph::Tensor::F32 {
        values: Some(v),
        shape,
    } = out
    {
        assert_eq!(v, &bits(&[0.5, 0.0, 2.0]));
        assert_eq!(shape, &vec![1, 3]);
    } else {
        panic!("the decoded output should hold 32-bit float values");
    }
    assert!(g.get_output("nowhere").is_none());
}

#[test]
fn readback_truncates_placeholder_padding() {
    let mut g = Graph::new();
    g.new_tensor_i64("Z", None, vec![2]).unwrap();
    let mut bytes = Vec::new();
    bytes.extend_from_slice(&(-3i64).to_le_bytes());
    bytes.extend_from_slice(&7i64.to_le_bytes());
    bytes.extend_from_slice(&[0xab; 8]); // padding past the element count
    g.store_output("Z", &bytes).unwrap();
    if let gosonnx::graph::Tensor::I64 {
        values: Some(v), ..
    } = g.get_output("Z").unwrap()
    {
        assert_eq!(v, &vec![-3, 7]);
    } else {
        panic!("the decoded output should hold 64-bit integer values");
    }
}
