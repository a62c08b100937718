use burn::onnx::{
    coalesce, convert_gemm_to_linear, is_add_node_with_bias, transpose_flattened, ArgType,
    Argument, AttributeValue, CoalesceError, Data, Node, NodeType, OnnxTensorType, F32_ONE_BITS,
};

fn arg(name: &str) -> Argument {
    Argument {
        name: name.to_string(),
        ty: ArgType::Scalar,
        value: None,
    }
}

fn weight_arg(rows: usize, cols: usize, bits: Vec<u32>) -> Argument {
    Argument {
        name: "weight".to_string(),
        ty: ArgType::Tensor(OnnxTensorType {
            dim: 2,
            shape: Some(vec![rows, cols]),
        }),
        value: Some(Data::Float32s(bits)),
    }
}

#[test]
fn transpose_flattened_exchanges_axes() {
    let m: Vec<u32> = vec![1, 2, 3, 4, 5, 6];
    let t = transpose_flattened(m, 2, 3);
    assert_eq!(t, vec![1, 4, 2, 5, 3, 6]);
}

#[test]
fn gemm_with_identity_scales_becomes_linear() {
    let w = vec![
        (1.0f32).to_bits(),
        (2.0f32).to_bits(),
        (3.0f32).to_bits(),
        (4.0f32).to_bits(),
        (5.0f32).to_bits(),
        (6.0f32).to_bits(),
    ];
    let mut node = Node {
        node_type: NodeType::Gemm,
        attrs: vec![
            ("alpha".to_string(), AttributeValue::Float32(F32_ONE_BITS)),
            ("beta".to_string(), AttributeValue::Float32(F32_ONE_BITS)),
            ("transB".to_string(), AttributeValue::Int64(1)),
        ],
        inputs: vec![arg("input"), weight_arg(2, 3, w)],
        outputs: vec![arg("output")],
    };
    assert!(convert_gemm_to_linear(&mut node).is_ok());
    assert_eq!(node.node_type, NodeType::Linear);
    assert!(node.attrs.is_empty());
    match &node.inputs[1].value {
        Some(Data::Float32s(d)) => {
            let expected: Vec<u32> = vec![
                (1.0f32).to_bits(),
                (4.0f32).to_bits(),
                (2.0f32).to_bits(),
                (5.0f32).to_bits(),
                (3.0f32).to_bits(),
                (6.0f32).to_bits(),
            ];
            assert_eq!(d, &expected);
        }
        _ => panic!("weight payload missing"),
    }
    match &node.inputs[1].ty {
        ArgType::Tensor(t) => assert_eq!(t.shape, Some(vec![3, 2])),
        _ => panic!("weight type missing"),
    }
}

#[test]
fn scaled_gemm_is_refused() {
    let mut node = Node {
        node_type: NodeType::Gemm,
        attrs: vec![
            ("alpha".to_string(), AttributeValue::Float32((2.0f32).to_bits())),
            ("beta".to_string(), AttributeValue::Float32(F32_ONE_BITS)),
            ("transB".to_string(), AttributeValue::Int64(1)),
        ],
        inputs: vec![arg("input"), weight_arg(1, 1, vec![F32_ONE_BITS])],
        outputs: vec![arg("output")],
    };
    assert_eq!(
        convert_gemm_to_linear(&mut node),
        Err(CoalesceError::UnsupportedGemm)
    );
}

#[test]
fn matmul_with_constant_weight_becomes_linear() {
    let mut node = Node {
        node_type: NodeType::MatMul,
        attrs: vec![],
        inputs: vec![arg("input"), weight_arg(2, 2, vec![0, 0, 0, 0])],
        outputs: vec![arg("output")],
    };
    assert!(coalesce(&mut node).is_ok());
    assert_eq!(node.node_type, NodeType::Linear);
}

#[test]
fn add_node_with_constant_operand_is_a_bias() {
    let current = Node {
        node_type: NodeType::Linear,
        attrs: vec![],
        inputs: vec![arg("input")],
        outputs: vec![arg("linear_out")],
    };
    let mut bias = arg("bias");
    bias.value = Some(Data::Float32s(vec![0]));
    let peek = Node {
        node_type: NodeType::Add,
        attrs: vec![],
        inputs: vec![arg("linear_out"), bias],
        outputs: vec![arg("sum_out")],
    };
    assert!(is_add_node_with_bias(&peek, &current));

    let plain = Node {
        node_type: NodeType::Add,
        attrs: vec![],
        inputs: vec![arg("linear_out"), arg("other")],
        outputs: vec![arg("sum_out")],
    };
    assert!(!is_add_node_with_bias(&plain, &current));
}
