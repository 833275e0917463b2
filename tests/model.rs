use std::path::PathBuf;

use odbc2parquet::model::{
    CompressionVariants, ConfigurationConflict, EncodingArgument, OutputTarget, QueryOpt,
};
use odbc2parquet::sizing::{BatchSizeLimit, FileSizeLimit};
use parquet::basic::Encoding;

fn query_opt() -> QueryOpt {
    QueryOpt::from_connection_string("Driver={Test};", "SELECT 1", PathBuf::from("out.par"))
}

#[test]
fn defaults_from_connection_string() {
    let opt = query_opt();
    assert_eq!(opt.connect_opts.connection_string.as_deref(), Some("Driver={Test};"));
    assert!(!opt.connect_opts.prompt);
    assert_eq!(opt.query, "SELECT 1");
    assert_eq!(opt.column_length_limit, 4096);
    assert_eq!(opt.suffix_length, 2);
    assert_eq!(opt.row_groups_per_file, 0);
    assert_eq!(opt.column_compression_default, CompressionVariants::Zstd);
    assert_eq!(opt.encoding, EncodingArgument::Auto);
    assert!(opt.output.is_file());
    assert_eq!(opt.file_size_limit(), FileSizeLimit::Unbounded);
    assert_eq!(opt.validate_output(), Ok(()));
}

#[test]
fn builders_set_their_field() {
    let opt = query_opt().file_size_treshold(2000).column_length_limit(10);
    assert_eq!(opt.file_size_threshold, Some(2000));
    assert_eq!(opt.column_length_limit, 10);
    assert_eq!(opt.file_size_limit(), FileSizeLimit::Size(2000));
}

#[test]
fn stream_output_conflicts_with_splitting() {
    let mut opt = query_opt();
    opt.output = OutputTarget::StdStream;
    assert_eq!(opt.validate_output(), Ok(()));
    opt.row_groups_per_file = 3;
    assert_eq!(opt.validate_output(), Err(ConfigurationConflict::RowGroupsPerFileWithStdout));
    opt.file_size_threshold = Some(10);
    assert_eq!(opt.validate_output(), Err(ConfigurationConflict::FileSizeThresholdWithStdout));
    assert!(ConfigurationConflict::FileSizeThresholdWithStdout.message().contains("stdout"));
}

#[test]
fn file_output_may_be_split() {
    let mut opt = query_opt();
    opt.row_groups_per_file = 3;
    opt.file_size_threshold = Some(10);
    assert_eq!(opt.validate_output(), Ok(()));
    assert_eq!(opt.file_size_limit(), FileSizeLimit::Both { row_groups: 3, size: 10 });
}

#[test]
fn batch_size_limit_from_options() {
    let mut opt = query_opt();
    opt.batch_size_row = Some(7);
    assert_eq!(opt.batch_size_limit(), BatchSizeLimit::Rows(7));
}

#[test]
fn column_encoding_override() {
    let mut opt = query_opt();
    opt.parquet_column_encoding = vec![
        ("a".to_string(), Encoding::DELTA_BINARY_PACKED),
        ("b".to_string(), Encoding::PLAIN),
        ("a".to_string(), Encoding::PLAIN),
    ];
    assert_eq!(opt.column_encoding("a"), Some(Encoding::DELTA_BINARY_PACKED));
    assert_eq!(opt.column_encoding("b"), Some(Encoding::PLAIN));
    assert_eq!(opt.column_encoding("c"), None);
}

#[test]
fn encoding_argument_resolution() {
    assert!(EncodingArgument::Utf16.use_utf16(false));
    assert!(!EncodingArgument::System.use_utf16(true));
    assert!(EncodingArgument::Auto.use_utf16(true));
    assert!(!EncodingArgument::Auto.use_utf16(false));
}

#[test]
fn conflict_messages() {
    assert_eq!(
        ConfigurationConflict::FileSizeThresholdWithStdout.message(),
        "file-size-threshold conflicts with specifying stdout ('-') as output."
    );
    assert_eq!(
        ConfigurationConflict::RowGroupsPerFileWithStdout.message(),
        "row-groups-per-file conflicts with specifying stdout ('-') as output."
    );
}
