use memory_rs::memory::batch::{BatchOp, BatchOpType, BatchProcessor, BatchResult};

#[test]
fn test_batch_op_add() {
    let op = BatchOp::add("id_1".to_string(), "content".to_string(), "fact".to_string());
    assert_eq!(op.op_type, BatchOpType::Add);
    assert_eq!(op.content, Some("content".to_string()));
}

#[test]
fn test_batch_op_update() {
    let op = BatchOp::update("id_1".to_string(), "new_content".to_string());
    assert_eq!(op.op_type, BatchOpType::Update);
    assert_eq!(op.content, Some("new_content".to_string()));
}

#[test]
fn test_batch_op_delete() {
    let op = BatchOp::delete("id_1".to_string());
    assert_eq!(op.op_type, BatchOpType::Delete);
    assert_eq!(op.content, None);
}

#[test]
fn test_batch_result() {
    let mut result = BatchResult::new(10);
    result.add_success();
    result.add_success();
    result.add_error("error".to_string());

    assert_eq!(result.successful, 2);
    assert_eq!(result.failed, 1);
    assert!(!result.all_succeeded());
    let (done, of) = result.success_parts();
    assert!(done as f32 / of as f32 > 0.1);
}

#[test]
fn test_split_into_batches() {
    let processor = BatchProcessor::new(3);
    let ops = vec![
        BatchOp::add("1".to_string(), "c1".to_string(), "t1".to_string()),
        BatchOp::add("2".to_string(), "c2".to_string(), "t2".to_string()),
        BatchOp::add("3".to_string(), "c3".to_string(), "t3".to_string()),
        BatchOp::add("4".to_string(), "c4".to_string(), "t4".to_string()),
    ];

    let batches = processor.split_into_batches(ops);
    assert_eq!(batches.len(), 2);
    assert_eq!(batches[0].len(), 3);
    assert_eq!(batches[1].len(), 1);
}

#[test]
fn test_optimize_batch_size() {
    let processor = BatchProcessor::new(32);
    assert_eq!(processor.optimize_batch_size(5), 5);
    assert_eq!(processor.optimize_batch_size(50), 10);
    assert_eq!(processor.optimize_batch_size(500), 32);
    assert_eq!(processor.optimize_batch_size(5000), 64);
}

#[test]
fn optimize_batch_size_at_the_steps() {
    let processor = BatchProcessor::default();
    assert_eq!(processor.batch_size, 32);
    assert!(processor.continue_on_error);
    assert_eq!(processor.optimize_batch_size(0), 0);
    assert_eq!(processor.optimize_batch_size(9), 9);
    assert_eq!(processor.optimize_batch_size(10), 10);
    assert_eq!(processor.optimize_batch_size(99), 10);
    assert_eq!(processor.optimize_batch_size(100), 32);
    assert_eq!(processor.optimize_batch_size(999), 32);
    assert_eq!(processor.optimize_batch_size(1000), 64);
}

#[test]
fn split_keeps_every_operation_in_order() {
    let processor = BatchProcessor::new(2);
    let ops: Vec<BatchOp> = (0..5).map(|i| BatchOp::delete(format!("m{}", i))).collect();
    let batches = processor.split_into_batches(ops);
    let ids: Vec<Vec<String>> = batches
        .iter()
        .map(|b| b.iter().map(|op| op.memory_id.clone()).collect())
        .collect();
    assert_eq!(
        ids,
        vec![
            vec!["m0".to_string(), "m1".to_string()],
            vec!["m2".to_string(), "m3".to_string()],
            vec!["m4".to_string()],
        ]
    );
}

#[test]
fn split_of_nothing_and_of_full_batches() {
    let processor = BatchProcessor::new(2);
    assert_eq!(processor.split_into_batches(Vec::new()).len(), 0);
    let ops: Vec<BatchOp> = (0..4).map(|i| BatchOp::delete(format!("m{}", i))).collect();
    let batches = processor.split_into_batches(ops);
    assert_eq!(batches.len(), 2);
    assert_eq!(batches[1].len(), 2);
}

#[test]
fn batch_result_parts_and_errors() {
    let empty = BatchResult::new(0);
    assert_eq!(empty.success_parts(), (1, 1));
    assert!(empty.all_succeeded());
    let mut result = BatchResult::new(4);
    result.add_success();
    result.add_error("first".to_string());
    result.add_error("second".to_string());
    assert_eq!(result.total, 4);
    assert_eq!(result.success_parts(), (1, 4));
    assert_eq!(result.errors, vec!["first".to_string(), "second".to_string()]);
}

#[test]
fn batch_ops_carry_their_fields() {
    let add = BatchOp::add("a".to_string(), "c".to_string(), "fact".to_string());
    assert_eq!(add.memory_id, "a");
    assert_eq!(add.memory_type, Some("fact".to_string()));
    let update = BatchOp::update("u".to_string(), "c".to_string());
    assert_eq!(update.memory_type, None);
    let delete = BatchOp::delete("d".to_string());
    assert_eq!(delete.memory_id, "d");
    assert_eq!(delete.memory_type, None);
    let copy = add.clone();
    assert_eq!(copy.op_type, BatchOpType::Add);
    assert_eq!(copy.content, Some("c".to_string()));
}
