//! Options of the query, insert and exec commands.
use std::path::PathBuf;
use vstd::prelude::*;
use crate::sizing::{BatchSizeLimit, FileSizeLimit};

verus! {

#[verifier::external_type_specification]
#[verifier::external_body]
pub struct ExPathBuf(std::path::PathBuf);

#[verifier::external_type_specification]
#[verifier::external_body]
pub struct ExEncoding(parquet::basic::Encoding);

/// How to connect to the data source.
#[derive(Debug, Clone)]
pub struct ConnectOpts {
    /// Whether the driver may prompt for missing connection information.
    pub prompt: bool,
    /// Connection string used to connect to the data source.
    pub connection_string: Option<String>,
    /// Data source name, as an alternative to the connection string.
    pub dsn: Option<String>,
    /// User name, appended to the connection string or passed along with the data source name.
    pub user: Option<String>,
    /// Password, appended to the connection string or passed along with the data source name.
    pub password: Option<String>,
}

/// Encoding of text in the transfer buffers.
#[derive(Debug, Clone, Copy, PartialEq, Eq, Structural)]
pub enum EncodingArgument {
    /// 8 bit characters in the encoding of the system locale.
    System,
    /// 16 bit characters, UTF-16.
    Utf16,
    /// `Utf16` on Windows, `System` elsewhere.
    Auto,
}

impl EncodingArgument {
    pub open spec fn use_utf16_spec(self, on_windows: bool) -> bool {
        match self {
            EncodingArgument::System => false,
            EncodingArgument::Utf16 => true,
            EncodingArgument::Auto => on_windows,
        }
    }

    /// Whether text is transferred as UTF-16, on a platform that is Windows or not.
    pub fn use_utf16(&self, on_windows: bool) -> (r: bool)
        ensures
            r == self.use_utf16_spec(on_windows),
    {
        match self {
            EncodingArgument::System => false,
            EncodingArgument::Utf16 => true,
            EncodingArgument::Auto => on_windows,
        }
    }
}

/// Compression applied to the columns of the output by default.
#[derive(Debug, Clone, Copy, PartialEq, Eq, Structural)]
pub enum CompressionVariants {
    Uncompressed,
    Gzip,
    Lz4,
    Lzo,
    Zstd,
    Snappy,
    Brotli,
}

/// Where query results are written.
#[derive(Debug)]
pub enum OutputTarget {
    /// Standard output: one continuous stream, which cannot be split into files.
    StdStream,
    /// A file, the base name of all files if the output is split.
    File(PathBuf),
}

impl OutputTarget {
    pub fn is_file(&self) -> (r: bool)
        ensures
            r == (self is File),
    {
        match self {
            OutputTarget::File(_) => true,
            OutputTarget::StdStream => false,
        }
    }
}

/// File splitting options that a stream output conflicts with.
#[derive(Debug, Clone, Copy, PartialEq, Eq, Structural)]
pub enum ConfigurationConflict {
    /// A file size threshold with standard output.
    FileSizeThresholdWithStdout,
    /// A bound on row groups per file with standard output.
    RowGroupsPerFileWithStdout,
}

impl ConfigurationConflict {
    /// Describes the conflict to the user.
    pub fn message(&self) -> (r: &'static str)
        ensures
            self is FileSizeThresholdWithStdout ==> r@
                == "file-size-threshold conflicts with specifying stdout ('-') as output."@,
            self is RowGroupsPerFileWithStdout ==> r@
                == "row-groups-per-file conflicts with specifying stdout ('-') as output."@,
    {
        match self {
            ConfigurationConflict::FileSizeThresholdWithStdout => "file-size-threshold conflicts with specifying stdout ('-') as output.",
            ConfigurationConflict::RowGroupsPerFileWithStdout => "row-groups-per-file conflicts with specifying stdout ('-') as output.",
        }
    }
}

/// Options of a query whose result is written into columnar files.
#[derive(Debug)]
pub struct QueryOpt {
    pub connect_opts: ConnectOpts,
    /// Size of a single batch in rows.
    pub batch_size_row: Option<usize>,
    /// Size of a single batch in bytes of transfer buffer.
    pub batch_size_memory: Option<u64>,
    /// Maximum number of row groups in one output file. `0` for no bound.
    pub row_groups_per_file: u32,
    /// Fetch into one buffer only, instead of fetching the next batch while the current one
    /// is written.
    pub sequential_fetching: bool,
    /// Size in bytes after which the current file is closed and a new one started.
    pub file_size_threshold: Option<u64>,
    /// Limit of the transfer buffer size of one element of a variable sized column.
    pub column_length_limit: usize,
    pub column_compression_default: CompressionVariants,
    /// Compression level, for the compressions that have one.
    pub column_compression_level_default: Option<u32>,
    pub encoding: EncodingArgument,
    /// Map binary columns to variable length byte arrays.
    pub prefer_varbinary: bool,
    /// Encodings of individual output columns, by column name.
    pub parquet_column_encoding: Vec<(String, parquet::basic::Encoding)>,
    /// Query 64 bit integers as text, for drivers that cannot bind them.
    pub driver_does_not_support_64bit_integers: bool,
    /// Avoid the decimal logical type in the output.
    pub avoid_decimal: bool,
    /// Number of digits of the numeric suffix of split output files.
    pub suffix_length: usize,
    /// Write no file for a result set without rows.
    pub no_empty_file: bool,
    pub output: OutputTarget,
    /// Query text. `?` marks positional parameters.
    pub query: String,
    /// One value for each positional parameter of the query.
    pub parameters: Vec<String>,
}

/// The encoding given for the named column: its first entry in `encodings`, if any.
pub open spec fn encoding_for(
    encodings: Seq<(String, parquet::basic::Encoding)>,
    column_name: Seq<char>,
) -> Option<parquet::basic::Encoding>
    decreases encodings.len(),
{
    if encodings.len() == 0 {
        None
    } else if encodings[0].0@ == column_name {
        Some(encodings[0].1)
    } else {
        encoding_for(encodings.drop_first(), column_name)
    }
}

impl QueryOpt {
    /// Options with their defaults, connecting through `connection_string`.
    pub fn from_connection_string(connection_string: &str, query: &str, output: PathBuf) -> (r:
        Self)
        ensures
            r.connect_opts.connection_string matches Some(c) && c@ == connection_string@,
            !r.connect_opts.prompt,
            r.connect_opts.dsn is None,
            r.connect_opts.user is None,
            r.connect_opts.password is None,
            r.query@ == query@,
            r.parameters@.len() == 0,
            r.batch_size_row is None,
            r.batch_size_memory is None,
            r.row_groups_per_file == 0,
            !r.sequential_fetching,
            r.file_size_threshold is None,
            r.column_length_limit == 4096,
            r.column_compression_default == CompressionVariants::Zstd,
            r.column_compression_level_default is None,
            r.encoding == EncodingArgument::Auto,
            !r.prefer_varbinary,
            r.parquet_column_encoding@.len() == 0,
            !r.driver_does_not_support_64bit_integers,
            !r.avoid_decimal,
            r.suffix_length == 2,
            !r.no_empty_file,
            r.output is File,
    {
        QueryOpt {
            connect_opts: ConnectOpts {
                prompt: false,
                connection_string: Some(String::from_str(connection_string)),
                dsn: None,
                user: None,
                password: None,
            },
            parameters: Vec::new(),
            query: String::from_str(query),
            batch_size_row: None,
            batch_size_memory: None,
            row_groups_per_file: 0,
            sequential_fetching: false,
            file_size_threshold: None,
            column_length_limit: 4096,
            column_compression_default: CompressionVariants::Zstd,
            column_compression_level_default: None,
            encoding: EncodingArgument::Auto,
            prefer_varbinary: false,
            parquet_column_encoding: Vec::new(),
            driver_does_not_support_64bit_integers: false,
            avoid_decimal: false,
            suffix_length: 2,
            no_empty_file: false,
            output: OutputTarget::File(output),
        }
    }

    /// Sets the file size threshold in bytes.
    pub fn file_size_treshold(self, threshold: u64) -> (r: Self)
        ensures
            r == (QueryOpt { file_size_threshold: Some(threshold), ..self }),
    {
        QueryOpt { file_size_threshold: Some(threshold), ..self }
    }

    /// Sets the limit of the transfer buffer size of one element of a variable sized column.
    pub fn column_length_limit(self, limit: usize) -> (r: Self)
        ensures
            r == (QueryOpt { column_length_limit: limit, ..self }),
    {
        QueryOpt { column_length_limit: limit, ..self }
    }

    pub open spec fn conflict(&self) -> Option<ConfigurationConflict> {
        if self.output is File {
            None
        } else if self.file_size_threshold is Some {
            Some(ConfigurationConflict::FileSizeThresholdWithStdout)
        } else if self.row_groups_per_file != 0 {
            Some(ConfigurationConflict::RowGroupsPerFileWithStdout)
        } else {
            None
        }
    }

    /// Rejects options that split the output if the output is a stream.
    pub fn validate_output(&self) -> (r: Result<(), ConfigurationConflict>)
        ensures
            r is Ok <==> self.conflict() is None,
            r matches Err(e) ==> self.conflict() == Some(e),
    {
        if !self.output.is_file() {
            if self.file_size_threshold.is_some() {
                return Err(ConfigurationConflict::FileSizeThresholdWithStdout);
            }
            if self.row_groups_per_file != 0 {
                return Err(ConfigurationConflict::RowGroupsPerFileWithStdout);
            }
        }
        Ok(())
    }

    /// How the size of output files is limited.
    pub fn file_size_limit(&self) -> (r: FileSizeLimit)
        ensures
            r == FileSizeLimit::new_spec(self.row_groups_per_file, self.file_size_threshold),
            r.well_formed(),
    {
        FileSizeLimit::new(self.row_groups_per_file, self.file_size_threshold)
    }

    /// How the size of batches is limited.
    pub fn batch_size_limit(&self) -> (r: BatchSizeLimit)
        ensures
            r == BatchSizeLimit::new_spec(self.batch_size_row, self.batch_size_memory),
    {
        BatchSizeLimit::new(self.batch_size_row, self.batch_size_memory)
    }

    /// Encoding given for the output column of this name, if any. It overrides the default
    /// encoding of the column's writer.
    pub fn column_encoding(&self, column_name: &str) -> (r: Option<parquet::basic::Encoding>)
        ensures
            r == encoding_for(self.parquet_column_encoding@, column_name@),
    {
        let target = String::from_str(column_name);
        let mut i: usize = 0;
        assert(self.parquet_column_encoding@.skip(0) =~= self.parquet_column_encoding@);
        while i < self.parquet_column_encoding.len()
            invariant
                0 <= i <= self.parquet_column_encoding@.len(),
                target@ == column_name@,
                encoding_for(self.parquet_column_encoding@, column_name@) == encoding_for(
                    self.parquet_column_encoding@.skip(i as int),
                    column_name@,
                ),
            decreases self.parquet_column_encoding@.len() - i,
        {
            let entry = &self.parquet_column_encoding[i];
            assert(self.parquet_column_encoding@.skip(i as int).drop_first()
                =~= self.parquet_column_encoding@.skip(i + 1));
            if entry.0.eq(&target) {
                return Some(entry.1);
            }
            i = i + 1;
        }
        None
    }
}

/// Options of inserting the rows of a columnar file into a table.
#[derive(Debug)]
pub struct InsertOpt {
    pub connect_opts: ConnectOpts,
    /// Encoding of text sent to the data source.
    pub encoding: EncodingArgument,
    /// Path to the input file.
    pub input: PathBuf,
    /// Name of the table the rows are inserted into. It is not quoted or escaped.
    pub table: String,
}

/// Options of executing a statement with the columns of a columnar file as parameters.
#[derive(Debug)]
pub struct ExecOpt {
    pub connect_opts: ConnectOpts,
    /// Encoding of text sent to the data source.
    pub encoding: EncodingArgument,
    /// Path to the input file.
    pub input: PathBuf,
    /// Statement to execute. `?name?` binds the column `name` of the input file.
    pub statement: String,
}

} // verus!
