use odbc2parquet::sizing::FileSizeLimit;
use odbc2parquet::split::{file_suffix, FileSplitter};

#[test]
fn suffix_is_zero_padded() {
    assert_eq!(file_suffix(1, 2), "01");
    assert_eq!(file_suffix(12, 2), "12");
    assert_eq!(file_suffix(123, 2), "123");
    assert_eq!(file_suffix(7, 4), "0007");
    assert_eq!(file_suffix(0, 0), "0");
    assert_eq!(file_suffix(u32::MAX, 12), "004294967295");
}

#[test]
fn splitter_moves_to_next_file_after_row_group_bound() {
    let mut splitter = FileSplitter::new(FileSizeLimit::new(2, None));
    let mut files = Vec::new();
    for _ in 0..5 {
        splitter.before_row_group();
        files.push(splitter.num_file());
        splitter.after_row_group(100);
    }
    assert_eq!(files, vec![1, 1, 2, 2, 3]);
}

#[test]
fn splitter_with_size_threshold() {
    let mut splitter = FileSplitter::new(FileSizeLimit::new(0, Some(1000)));
    let mut started = Vec::new();
    let mut size = 0u64;
    for group in [400u64, 400, 400, 100, 950, 10] {
        let new_file = splitter.before_row_group();
        if new_file {
            size = 0;
        }
        started.push(new_file);
        size += group;
        splitter.after_row_group(size);
    }
    assert_eq!(started, vec![false, false, false, true, false, true]);
    assert_eq!(splitter.num_file(), 3);
}
