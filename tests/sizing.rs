use odbc2parquet::sizing::{BatchSizeLimit, FileSizeLimit, InsufficientMemoryBudget, GIB};

#[test]
fn rows_limit_alone_is_the_batch_size() {
    let limit = BatchSizeLimit::new(Some(100), None);
    assert_eq!(limit, BatchSizeLimit::Rows(100));
    assert_eq!(limit.batch_size_in_rows(1_000_000).unwrap(), 100);
}

#[test]
fn memory_limit_alone_divides_by_row_size() {
    let limit = BatchSizeLimit::new(None, Some(10_000));
    assert_eq!(limit.batch_size_in_rows(300).unwrap(), 33);
    assert_eq!(limit.batch_size_in_rows(10_000).unwrap(), 1);
}

#[test]
fn single_row_larger_than_memory_limit_fails() {
    let limit = BatchSizeLimit::new(None, Some(1000));
    assert_eq!(
        limit.batch_size_in_rows(1001),
        Err(InsufficientMemoryBudget { memory_limit: 1000, bytes_per_row: 1001 })
    );
    let both = BatchSizeLimit::new(Some(5), Some(1000));
    assert_eq!(
        both.batch_size_in_rows(2000),
        Err(InsufficientMemoryBudget { memory_limit: 1000, bytes_per_row: 2000 })
    );
}

#[test]
fn both_limits_take_the_smaller_row_count() {
    let limit = BatchSizeLimit::new(Some(10), Some(1000));
    assert_eq!(limit.batch_size_in_rows(10).unwrap(), 10);
    assert_eq!(limit.batch_size_in_rows(200).unwrap(), 5);
}

#[test]
fn defaults_apply_without_limits() {
    let limit = BatchSizeLimit::new(None, None);
    let expected_memory = if usize::BITS == 64 { 2 * GIB } else { GIB };
    assert_eq!(limit, BatchSizeLimit::Both { rows: 65535, memory: expected_memory });
    assert_eq!(limit.batch_size_in_rows(1000).unwrap(), 65535);
    assert_eq!(
        limit.batch_size_in_rows(1024 * 1024).unwrap(),
        (expected_memory / (1024 * 1024)) as usize
    );
}

#[test]
fn file_size_limit_from_options() {
    assert_eq!(FileSizeLimit::new(0, None), FileSizeLimit::Unbounded);
    assert_eq!(FileSizeLimit::new(0, Some(5)), FileSizeLimit::Size(5));
    assert_eq!(FileSizeLimit::new(3, None), FileSizeLimit::RowGroups(3));
    assert_eq!(FileSizeLimit::new(3, Some(5)), FileSizeLimit::Both { row_groups: 3, size: 5 });
    assert!(!FileSizeLimit::new(0, None).output_is_splitted());
    assert!(FileSizeLimit::new(0, Some(5)).output_is_splitted());
    assert!(FileSizeLimit::new(2, None).output_is_splitted());
}

#[test]
fn unbounded_never_splits() {
    let limit = FileSizeLimit::new(0, None);
    assert!(!limit.should_start_new_file(0, 0));
    assert!(!limit.should_start_new_file(1000, u64::MAX));
}

#[test]
fn row_group_bound_of_three() {
    let limit = FileSizeLimit::new(3, None);
    let answers: Vec<bool> = (0..7).map(|n| limit.should_start_new_file(n, 0)).collect();
    assert_eq!(answers, vec![false, false, false, true, false, false, true]);
}

#[test]
fn size_threshold_of_thousand_bytes() {
    let limit = FileSizeLimit::new(0, Some(1000));
    assert!(!limit.should_start_new_file(5, 0));
    assert!(!limit.should_start_new_file(5, 999));
    assert!(limit.should_start_new_file(5, 1000));
    assert!(limit.should_start_new_file(5, 1400));
}

#[test]
fn both_bounds_split_on_either() {
    let limit = FileSizeLimit::new(2, Some(1000));
    assert!(!limit.should_start_new_file(1, 10));
    assert!(limit.should_start_new_file(2, 10));
    assert!(limit.should_start_new_file(1, 1000));
    assert!(!limit.should_start_new_file(0, 999));
}

#[test]
fn memory_error_names_budget_and_row_cost() {
    let e = InsufficientMemoryBudget { memory_limit: 1000, bytes_per_row: 4096 };
    let message = e.message();
    assert!(message.starts_with(
        "Memory required to hold a single row is larger than the limit. Memory Limit: 1000 bytes, \
        Memory per row: 4096 bytes.\n"
    ));
    assert!(message.contains("--column-length-limit"));
    let zero = InsufficientMemoryBudget { memory_limit: 0, bytes_per_row: 1 };
    assert!(zero.message().contains("Memory Limit: 0 bytes, Memory per row: 1 bytes."));
    let large = InsufficientMemoryBudget { memory_limit: u64::MAX, bytes_per_row: 10 };
    assert!(large.message().contains("Memory Limit: 18446744073709551615 bytes"));
}
