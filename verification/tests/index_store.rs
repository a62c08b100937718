use burn::fusion::{
    BinaryOperationDescription, ExecutionPlanIndex, InsertQuery, OperationDescription,
    ScalarOperationDescription, SearchQuery, TensorDescription, TensorStatus, operation_key,
};

fn td(id: u64, shape: Vec<usize>, status: TensorStatus) -> TensorDescription {
    TensorDescription { id, shape, status }
}

fn ops_1() -> OperationDescription {
    OperationDescription::Add(BinaryOperationDescription {
        lhs: td(0, vec![32, 32], TensorStatus::ReadOnly),
        rhs: td(1, vec![32, 32], TensorStatus::ReadOnly),
        out: td(2, vec![32, 32], TensorStatus::NotInit),
    })
}

fn ops_2() -> OperationDescription {
    OperationDescription::AddScalar(ScalarOperationDescription {
        lhs: td(0, vec![32, 32], TensorStatus::ReadOnly),
        rhs: (5.0f32).to_bits(),
        out: td(2, vec![32, 32], TensorStatus::NotInit),
    })
}

fn ops_3() -> OperationDescription {
    OperationDescription::Sub(BinaryOperationDescription {
        lhs: td(0, vec![32, 32], TensorStatus::ReadOnly),
        rhs: td(1, vec![32, 32], TensorStatus::ReadOnly),
        out: td(2, vec![32, 32], TensorStatus::NotInit),
    })
}

#[test]
fn should_find_optimization_id_based_on_tensor_ops() {
    let mut index = ExecutionPlanIndex::new();
    let stream_1 = [ops_1()];
    let optimization_id_1 = 0;

    index.insert(InsertQuery::NewPlan {
        operations: &stream_1,
        id: optimization_id_1,
    });

    let found = index.find(SearchQuery::PlansStartingWith(&stream_1[0]));

    assert_eq!(found, vec![optimization_id_1]);
}

#[test]
fn should_support_multiple_optimization_ids_with_same_starting_ops() {
    let mut index = ExecutionPlanIndex::new();
    let stream_1 = [ops_1(), ops_2(), ops_1()];
    let stream_2 = [ops_1(), ops_1(), ops_2()];
    let optimization_id_1 = 0;
    let optimization_id_2 = 1;

    index.insert(InsertQuery::NewPlan {
        operations: &stream_1,
        id: optimization_id_1,
    });
    index.insert(InsertQuery::NewPlan {
        operations: &stream_2,
        id: optimization_id_2,
    });

    let found = index.find(SearchQuery::PlansStartingWith(&stream_1[0]));

    assert_eq!(found, vec![optimization_id_1, optimization_id_2]);
}

#[test]
fn should_only_find_optimization_with_correct_starting_ops() {
    let mut index = ExecutionPlanIndex::new();
    let stream_1 = [ops_1(), ops_1()];
    let stream_2 = [ops_2(), ops_1()];
    let optimization_id_1 = 0;
    let optimization_id_2 = 1;

    index.insert(InsertQuery::NewPlan {
        operations: &stream_1,
        id: optimization_id_1,
    });
    index.insert(InsertQuery::NewPlan {
        operations: &stream_2,
        id: optimization_id_2,
    });

    let found = index.find(SearchQuery::PlansStartingWith(&stream_1[0]));

    assert_eq!(found, vec![optimization_id_1]);
}

#[test]
fn should_handle_hash_collisions() {
    let mut index = ExecutionPlanIndex::new();
    let stream_1 = [ops_1(), ops_1()];
    let stream_2 = [ops_3(), ops_1()];
    let optimization_id_1 = 0;
    let optimization_id_2 = 1;

    let stream_1_key = operation_key(&stream_1[0]);
    let stream_2_key = operation_key(&stream_2[0]);

    assert_eq!(
        stream_1_key, stream_2_key,
        "Ops 1 and Ops 3 have the same hash"
    );
    assert!(
        !stream_1[0].same_as(&stream_2[0]),
        "Ops 1 and Ops 3 are different."
    );

    index.insert(InsertQuery::NewPlan {
        operations: &stream_1,
        id: optimization_id_1,
    });
    index.insert(InsertQuery::NewPlan {
        operations: &stream_2,
        id: optimization_id_2,
    });

    let found = index.find(SearchQuery::PlansStartingWith(&stream_1[0]));

    assert_eq!(found, vec![optimization_id_1]);
}
