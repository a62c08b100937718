use burn::element::Element;
use burn::import::{ModelGen, RecordType};
use burn::nn::{GateController, Initializer, LinearConfig, Relu};
use burn::record::{DefaultMapAccess, DefaultSeqAccess, Deserializer, NestedValue, Serializer};
use burn::shader::{Elem, Item, Procedure, ReadGlobal, Variable, Vectorization, WorkgroupSize};
use burn::tch::TchShape;
use burn::tensor::Tensor;
use burn::train::{
    Aggregate, CheckpointingAction, Direction, LossInput, LossMetric, MetricCheckpointingStrategy,
    Split,
};
use burn::tune::{find_fastest, Tuner};

#[test]
fn relu_zeroes_negative_elements() {
    let t: Tensor<i64> = Tensor::from_parts(vec![4], vec![-2, 0, 3, -7]).unwrap();
    let out = Relu::new().forward(&t);
    assert_eq!(out.into_data(), vec![0, 0, 3, 0]);
}

#[test]
fn relu_backward_blocks_clamped_cells() {
    let out: Tensor<i64> = Tensor::from_parts(vec![4], vec![0, 5, 0, 2]).unwrap();
    let grad: Tensor<i64> = Tensor::from_parts(vec![4], vec![10, 10, 10, 10]).unwrap();
    let gx = burn::activation::relu_backward(&out, &grad);
    assert_eq!(gx.into_data(), vec![0, 10, 0, 10]);
}

#[test]
fn leaky_relu_scales_negative_cells() {
    let t: Tensor<i64> = Tensor::from_parts(vec![4], vec![-4, 0, 3, -6]).unwrap();
    let out = burn::activation::leaky_relu(&t, 2);
    assert_eq!(out.into_data(), vec![-8, 0, 3, -12]);
}

#[test]
fn linear_init_fills_per_initializer() {
    let layer = LinearConfig {
        d_input: 2,
        d_output: 3,
        bias: true,
        initializer: Initializer::Ones,
    }
    .init::<i64>();
    assert_eq!(layer.weight.shape_of(), vec![2, 3]);
    assert_eq!(layer.weight.into_data(), vec![1, 1, 1, 1, 1, 1]);
    assert_eq!(layer.bias.unwrap().into_data(), vec![1, 1, 1]);
}

#[test]
fn gate_controller_holds_two_transforms() {
    let gate: GateController<i64> = GateController::new(2, 3, false, Initializer::Zeros);
    assert_eq!(gate.input_transform.weight.shape_of(), vec![2, 3]);
    assert_eq!(gate.hidden_transform.weight.shape_of(), vec![3, 3]);
    assert!(gate.input_transform.bias.is_none());
}

#[test]
fn serializer_collects_fields_into_a_map() {
    let mut ser = Serializer::new();
    ser.serialize_field("a".to_string(), NestedValue::I32(1));
    ser.serialize_field("b".to_string(), NestedValue::Str("Hello".to_string()));
    let value = ser.end_struct().unwrap();
    match value {
        NestedValue::Entries(entries) => {
            assert_eq!(entries.len(), 2);
            assert_eq!(entries[0].0, "a");
            assert!(matches!(entries[0].1, NestedValue::I32(1)));
            assert_eq!(entries[1].0, "b");
        }
        _ => panic!("expected a map"),
    }
}

#[test]
fn serializer_collects_elements_into_a_sequence() {
    let mut ser = Serializer::new();
    ser.serialize_element(NestedValue::U64(3));
    ser.serialize_element(NestedValue::U64(4));
    let value = ser.end_seq().unwrap();
    match value {
        NestedValue::Items(items) => assert_eq!(items.len(), 2),
        _ => panic!("expected a sequence"),
    }
}

#[test]
fn deserializer_hands_back_its_value() {
    let de = Deserializer::new(NestedValue::Bool(true), false);
    assert!(matches!(de.into_value(), Some(NestedValue::Bool(true))));
}

#[test]
fn default_seq_access_counts_down() {
    let mut acc = DefaultSeqAccess::new(Some(2));
    assert!(acc.next_element());
    assert!(acc.next_element());
    assert!(!acc.next_element());
    assert_eq!(acc.size_hint(), Some(0));

    let map = DefaultMapAccess::new();
    assert!(!map.next_key());
    assert!(map.size_hint().is_none());
}

#[test]
fn always_keep_the_best_epoch() {
    let mut strategy = MetricCheckpointingStrategy::new(
        "Loss".to_string(),
        Aggregate::Mean,
        Direction::Lowest,
        Split::Train,
    );

    // First epoch: mean 0.75, so it is the best and is saved.
    assert_eq!(
        vec![CheckpointingAction::Save],
        strategy.checkpointing(1, Some(1))
    );

    // Second epoch: mean 0.4 beats it, so the previous record goes.
    assert_eq!(
        vec![CheckpointingAction::Delete(1), CheckpointingAction::Save],
        strategy.checkpointing(2, Some(2))
    );

    // Third epoch: mean 2.0 is worse, so nothing is saved or deleted.
    assert!(strategy.checkpointing(3, Some(2)).is_empty());
}

#[test]
fn loss_metric_tracks_the_mean() {
    let mut metric: LossMetric<i64> = LossMetric::new();
    let batch = LossInput::new(Tensor::from_parts(vec![2], vec![4, 8]).unwrap());
    metric.update(&batch);
    assert_eq!(metric.value(), 6);
    metric.clear();
    assert_eq!(metric.value(), 0);
}

#[test]
fn tuner_remembers_the_fastest_kernel() {
    let mut tuner = Tuner::new("device");
    assert!(tuner.autotune_fastest(7).is_none());
    let fastest = find_fastest(&vec![120, 80, 95]);
    assert_eq!(fastest, 1);
    tuner.cache_insert(7, fastest);
    assert_eq!(tuner.autotune_fastest(7), Some(1));
}

#[test]
fn model_gen_collects_its_configuration() {
    let mut gen = ModelGen::new();
    assert!(!gen.ready());
    gen.out_dir("out".to_string());
    gen.input("model.onnx".to_string());
    gen.record_type(RecordType::PrettyJson);
    gen.half_precision(true);
    gen.development(true);
    gen.embed_states(true);
    assert!(gen.ready());
}

#[test]
fn shader_items_vectorize_per_kind() {
    assert_eq!(Item::Scalar(Elem::Float).elem(), Elem::Float);
    assert_eq!(
        Item::Scalar(Elem::UInt).vectorize(Vectorization::Vec4),
        Item::Vec4(Elem::UInt)
    );
    assert_eq!(Elem::Int.into_item(), Item::Scalar(Elem::Int));
    assert_eq!(Elem::Float.name(), "float");

    let read = Procedure::ReadGlobal(ReadGlobal {
        variable: Variable::GlobalInputArray(0, Item::Scalar(Elem::Float)),
    });
    match read.vectorize(Vectorization::Vec2) {
        Procedure::ReadGlobal(r) => {
            assert_eq!(r.variable, Variable::GlobalInputArray(0, Item::Vec2(Elem::Float)));
        }
        _ => panic!("kind changed"),
    }

    let ws = WorkgroupSize::default();
    assert_eq!((ws.x, ws.y, ws.z), (32, 32, 1));
}

#[test]
fn checkpoint_paths_name_the_epoch() {
    let cp = burn::train::FileCheckpointer::new("logs".to_string(), "model".to_string());
    assert_eq!(cp.path_for_epoch(0), "logs/model-0");
    assert_eq!(cp.path_for_epoch(42), "logs/model-42");
    assert_eq!(cp.path_for_epoch(1905), "logs/model-1905");
}

#[test]
fn tch_shape_converts_dimensions() {
    let s: TchShape<3> = TchShape::from_dims(&[2, 3, 4]);
    assert_eq!(s.dims, [2i64, 3, 4]);
}

#[test]
fn autotune_key_is_anchored() {
    let key = burn::tune::FusionElemWiseAutotuneKey::new(3, &vec![100, 5000]);
    assert_eq!(key.anchored_num_operations, 4);
    assert_eq!(key.anchored_shape, vec![128, 4096]);
}
