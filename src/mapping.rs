//! Maps the relational type of a source column to the layout of its transfer buffer and to
//! the type it is stored as in the columnar file.
use vstd::prelude::*;

verus! {

/// Relational type of a source column, as the data source describes it.
#[allow(inconsistent_fields)]
#[derive(Debug, Clone, Copy, PartialEq, Eq, Structural)]
pub enum SqlType {
    Bit,
    TinyInt,
    SmallInt,
    Integer,
    BigInt,
    Real,
    Double,
    /// Fixed point number with `precision` decimal digits, `scale` of them after the point.
    Decimal { precision: usize, scale: i16 },
    /// Character data of at most `length` characters, `None` if the length is unknown.
    Text { length: Option<usize> },
    /// Binary data of at most `length` bytes, `None` if the length is unknown.
    Binary { length: Option<usize> },
    Date,
    Time,
    /// Timestamp with `precision` digits of fractional seconds.
    Timestamp { precision: i16 },
    /// Any other type, by its type code.
    Other { type_code: i16 },
}

/// Name, type and nullability of a source column.
#[derive(Debug, Clone)]
pub struct ColumnDescriptor {
    pub name: String,
    pub sql_type: SqlType,
    pub nullable: bool,
}

/// Element kind of a column in the transfer buffer.
#[derive(Debug, Clone, Copy, PartialEq, Eq, Structural)]
pub enum BufferKind {
    Bit,
    I8,
    I16,
    I32,
    I64,
    F32,
    F64,
    Date,
    Time,
    Timestamp,
    /// Narrow text of at most `max_bytes` bytes.
    Text { max_bytes: usize },
    /// UTF-16 text of at most `max_chars` code units.
    WText { max_chars: usize },
    /// Binary data of at most `max_bytes` bytes.
    Binary { max_bytes: usize },
}

/// Type a column is stored as in the columnar file.
#[allow(inconsistent_fields)]
#[derive(Debug, Clone, Copy, PartialEq, Eq, Structural)]
pub enum StorageKind {
    Boolean,
    /// 32 bit integer annotated as an 8 bit integer.
    Int8,
    /// 32 bit integer annotated as a 16 bit integer.
    Int16,
    /// Plain 32 bit integer, without logical annotation.
    Int32,
    /// Plain 64 bit integer, without logical annotation.
    Int64,
    Float,
    Double,
    /// Annotated as decimal with this precision and scale.
    Decimal { precision: usize, scale: i16 },
    /// UTF-8 text.
    Utf8,
    FixedLenByteArray { length: usize },
    ByteArray,
    Date,
    Time,
    Timestamp { precision: i16 },
}

/// How one column travels between transfer buffer and columnar file.
#[derive(Debug, Clone, Copy, PartialEq, Eq, Structural)]
pub struct ColumnMapping {
    pub buffer: BufferKind,
    pub storage: StorageKind,
    /// The buffer holds the value as text, which is parsed into, or formatted from, the
    /// stored number.
    pub via_text: bool,
}

/// The switches of the type mapping.
#[derive(Debug, Clone, Copy, PartialEq, Eq, Structural)]
pub struct MappingOptions {
    /// Transfer text as UTF-16 rather than in the system encoding.
    pub use_utf16: bool,
    /// Limit of the length of text (in characters) and binary (in bytes) elements.
    pub column_length_limit: usize,
    /// Store binary columns as variable length byte arrays.
    pub prefer_varbinary: bool,
    /// Store decimals as plain integers or as text, never with the decimal annotation.
    pub avoid_decimal: bool,
    /// Transfer 64 bit integers as text, for drivers that cannot bind them.
    pub driver_does_not_support_64bit_integers: bool,
}

/// A source column whose type has no mapping.
#[derive(Debug, Clone)]
pub struct TypeMappingError {
    pub column_name: String,
    pub type_code: i16,
}

/// Longest text of a 64 bit integer: a sign and 19 digits.
pub const I64_TEXT_LEN: usize = 20;

/// Size in bytes of an element of a date or a time in the transfer buffer.
pub const DATE_TIME_BYTES: usize = 6;

/// Size in bytes of an element of a timestamp in the transfer buffer.
pub const TIMESTAMP_BYTES: usize = 16;

/// Size in bytes of the per row indicator, which holds null and length.
pub const INDICATOR_BYTES: usize = 8;

/// The declared length, capped by the limit; the limit where no length is declared.
pub open spec fn bounded_length(declared: Option<usize>, limit: usize) -> usize {
    match declared {
        Some(n) => if n <= limit {
            n
        } else {
            limit
        },
        None => limit,
    }
}

/// `x`, or `usize::MAX` if it is larger.
pub open spec fn saturate(x: int) -> usize {
    if x > usize::MAX {
        usize::MAX
    } else {
        x as usize
    }
}

/// Text buffer for a decimal: its digits, a sign and a point.
pub open spec fn decimal_text_len(precision: usize) -> usize {
    saturate(precision + 2)
}

pub open spec fn decimal_mapping(precision: usize, scale: i16, opts: MappingOptions) -> ColumnMapping {
    if scale == 0 && precision <= 9 {
        ColumnMapping {
            buffer: BufferKind::I32,
            storage: if opts.avoid_decimal {
                StorageKind::Int32
            } else {
                StorageKind::Decimal { precision, scale }
            },
            via_text: false,
        }
    } else if scale == 0 && precision <= 18 {
        ColumnMapping {
            buffer: if opts.driver_does_not_support_64bit_integers {
                BufferKind::Text { max_bytes: I64_TEXT_LEN }
            } else {
                BufferKind::I64
            },
            storage: if opts.avoid_decimal {
                StorageKind::Int64
            } else {
                StorageKind::Decimal { precision, scale }
            },
            via_text: opts.driver_does_not_support_64bit_integers,
        }
    } else {
        ColumnMapping {
            buffer: BufferKind::Text { max_bytes: decimal_text_len(precision) },
            storage: if opts.avoid_decimal {
                StorageKind::Utf8
            } else {
                StorageKind::Decimal { precision, scale }
            },
            via_text: !opts.avoid_decimal,
        }
    }
}

/// The mapping of a column of this type, `None` if the type has none.
pub open spec fn map_type(sql_type: SqlType, opts: MappingOptions) -> Option<ColumnMapping> {
    let direct = |buffer: BufferKind, storage: StorageKind|
        ColumnMapping { buffer, storage, via_text: false };
    match sql_type {
        SqlType::Bit => Some(direct(BufferKind::Bit, StorageKind::Boolean)),
        SqlType::TinyInt => Some(direct(BufferKind::I8, StorageKind::Int8)),
        SqlType::SmallInt => Some(direct(BufferKind::I16, StorageKind::Int16)),
        SqlType::Integer => Some(direct(BufferKind::I32, StorageKind::Int32)),
        SqlType::BigInt => Some(
            if opts.driver_does_not_support_64bit_integers {
                ColumnMapping {
                    buffer: BufferKind::Text { max_bytes: I64_TEXT_LEN },
                    storage: StorageKind::Int64,
                    via_text: true,
                }
            } else {
                direct(BufferKind::I64, StorageKind::Int64)
            },
        ),
        SqlType::Real => Some(direct(BufferKind::F32, StorageKind::Float)),
        SqlType::Double => Some(direct(BufferKind::F64, StorageKind::Double)),
        SqlType::Decimal { precision, scale } => Some(decimal_mapping(precision, scale, opts)),
        SqlType::Text { length } => {
            let n = bounded_length(length, opts.column_length_limit);
            Some(
                direct(
                    if opts.use_utf16 {
                        BufferKind::WText { max_chars: n }
                    } else {
                        BufferKind::Text { max_bytes: n }
                    },
                    StorageKind::Utf8,
                ),
            )
        },
        SqlType::Binary { length } => {
            let n = bounded_length(length, opts.column_length_limit);
            Some(
                direct(
                    BufferKind::Binary { max_bytes: n },
                    if opts.prefer_varbinary {
                        StorageKind::ByteArray
                    } else {
                        StorageKind::FixedLenByteArray { length: n }
                    },
                ),
            )
        },
        SqlType::Date => Some(direct(BufferKind::Date, StorageKind::Date)),
        SqlType::Time => Some(direct(BufferKind::Time, StorageKind::Time)),
        SqlType::Timestamp { precision } => Some(
            direct(BufferKind::Timestamp, StorageKind::Timestamp { precision }),
        ),
        SqlType::Other { .. } => None,
    }
}

fn bounded_length_exec(declared: Option<usize>, limit: usize) -> (r: usize)
    ensures
        r == bounded_length(declared, limit),
{
    match declared {
        Some(n) => if n <= limit {
            n
        } else {
            limit
        },
        None => limit,
    }
}

fn sat_add(a: usize, b: usize) -> (r: usize)
    ensures
        r == saturate(a + b),
{
    if a > usize::MAX - b {
        usize::MAX
    } else {
        a + b
    }
}

fn decimal_mapping_exec(precision: usize, scale: i16, opts: MappingOptions) -> (r: ColumnMapping)
    ensures
        r == decimal_mapping(precision, scale, opts),
{
    if scale == 0 && precision <= 9 {
        ColumnMapping {
            buffer: BufferKind::I32,
            storage: if opts.avoid_decimal {
                StorageKind::Int32
            } else {
                StorageKind::Decimal { precision, scale }
            },
            via_text: false,
        }
    } else if scale == 0 && precision <= 18 {
        ColumnMapping {
            buffer: if opts.driver_does_not_support_64bit_integers {
                BufferKind::Text { max_bytes: I64_TEXT_LEN }
            } else {
                BufferKind::I64
            },
            storage: if opts.avoid_decimal {
                StorageKind::Int64
            } else {
                StorageKind::Decimal { precision, scale }
            },
            via_text: opts.driver_does_not_support_64bit_integers,
        }
    } else {
        ColumnMapping {
            buffer: BufferKind::Text { max_bytes: sat_add(precision, 2) },
            storage: if opts.avoid_decimal {
                StorageKind::Utf8
            } else {
                StorageKind::Decimal { precision, scale }
            },
            via_text: !opts.avoid_decimal,
        }
    }
}

fn direct(buffer: BufferKind, storage: StorageKind) -> (r: ColumnMapping)
    ensures
        r == (ColumnMapping { buffer, storage, via_text: false }),
{
    ColumnMapping { buffer, storage, via_text: false }
}

/// Mapping of a column of this type, `None` if the type has none.
pub fn map_sql_type(sql_type: SqlType, opts: MappingOptions) -> (r: Option<ColumnMapping>)
    ensures
        r == map_type(sql_type, opts),
{
    match sql_type {
        SqlType::Bit => Some(direct(BufferKind::Bit, StorageKind::Boolean)),
        SqlType::TinyInt => Some(direct(BufferKind::I8, StorageKind::Int8)),
        SqlType::SmallInt => Some(direct(BufferKind::I16, StorageKind::Int16)),
        SqlType::Integer => Some(direct(BufferKind::I32, StorageKind::Int32)),
        SqlType::BigInt => Some(
            if opts.driver_does_not_support_64bit_integers {
                ColumnMapping {
                    buffer: BufferKind::Text { max_bytes: I64_TEXT_LEN },
                    storage: StorageKind::Int64,
                    via_text: true,
                }
            } else {
                direct(BufferKind::I64, StorageKind::Int64)
            },
        ),
        SqlType::Real => Some(direct(BufferKind::F32, StorageKind::Float)),
        SqlType::Double => Some(direct(BufferKind::F64, StorageKind::Double)),
        SqlType::Decimal { precision, scale } => Some(decimal_mapping_exec(precision, scale, opts)),
        SqlType::Text { length } => {
            let n = bounded_length_exec(length, opts.column_length_limit);
            Some(
                direct(
                    if opts.use_utf16 {
                        BufferKind::WText { max_chars: n }
                    } else {
                        BufferKind::Text { max_bytes: n }
                    },
                    StorageKind::Utf8,
                ),
            )
        },
        SqlType::Binary { length } => {
            let n = bounded_length_exec(length, opts.column_length_limit);
            Some(
                direct(
                    BufferKind::Binary { max_bytes: n },
                    if opts.prefer_varbinary {
                        StorageKind::ByteArray
                    } else {
                        StorageKind::FixedLenByteArray { length: n }
                    },
                ),
            )
        },
        SqlType::Date => Some(direct(BufferKind::Date, StorageKind::Date)),
        SqlType::Time => Some(direct(BufferKind::Time, StorageKind::Time)),
        SqlType::Timestamp { precision } => Some(
            direct(BufferKind::Timestamp, StorageKind::Timestamp { precision }),
        ),
        SqlType::Other { .. } => None,
    }
}

/// Mapping of a source column; an error naming the column if its type has none.
pub fn map_column(column: &ColumnDescriptor, opts: MappingOptions) -> (r: Result<
    ColumnMapping,
    TypeMappingError,
>)
    ensures
        map_type(column.sql_type, opts) matches Some(m) ==> r == Ok::<
            ColumnMapping,
            TypeMappingError,
        >(m),
        map_type(column.sql_type, opts) is None ==> (r matches Err(e) && e.column_name@
            == column.name@ && column.sql_type == (SqlType::Other { type_code: e.type_code })),
{
    match map_sql_type(column.sql_type, opts) {
        Some(m) => Ok(m),
        None => {
            let type_code = match column.sql_type {
                SqlType::Other { type_code } => type_code,
                _ => 0,
            };
            Err(TypeMappingError { column_name: column.name.clone(), type_code })
        },
    }
}

/// A column of the transfer buffer: its element kind and whether it holds nulls.
#[derive(Debug, Clone, Copy, PartialEq, Eq, Structural)]
pub struct BufferColumn {
    pub kind: BufferKind,
    pub nullable: bool,
}

/// Stride of an element of this kind in bytes. Text has room for a terminating zero.
pub open spec fn element_bytes_spec(kind: BufferKind) -> int {
    match kind {
        BufferKind::Bit => 1,
        BufferKind::I8 => 1,
        BufferKind::I16 => 2,
        BufferKind::I32 => 4,
        BufferKind::I64 => 8,
        BufferKind::F32 => 4,
        BufferKind::F64 => 8,
        BufferKind::Date => DATE_TIME_BYTES as int,
        BufferKind::Time => DATE_TIME_BYTES as int,
        BufferKind::Timestamp => TIMESTAMP_BYTES as int,
        BufferKind::Text { max_bytes } => max_bytes + 1,
        BufferKind::WText { max_chars } => 2 * (max_chars + 1),
        BufferKind::Binary { max_bytes } => max_bytes as int,
    }
}

/// Variable length elements and nullable columns have an indicator per row.
pub open spec fn has_indicator(column: BufferColumn) -> bool {
    column.nullable || column.kind is Text || column.kind is WText || column.kind is Binary
}

/// Bytes one row takes in this column of the transfer buffer.
pub open spec fn column_row_bytes(column: BufferColumn) -> int {
    element_bytes_spec(column.kind) + if has_indicator(column) {
        INDICATOR_BYTES as int
    } else {
        0
    }
}

/// Bytes one row takes in the transfer buffer.
pub open spec fn row_bytes(columns: Seq<BufferColumn>) -> int
    decreases columns.len(),
{
    if columns.len() == 0 {
        0
    } else {
        row_bytes(columns.drop_last()) + column_row_bytes(columns.last())
    }
}

/// Stride of an element of this kind in bytes, `usize::MAX` if it does not fit.
pub fn element_bytes(kind: BufferKind) -> (r: usize)
    ensures
        r == saturate(element_bytes_spec(kind)),
{
    match kind {
        BufferKind::Bit => 1,
        BufferKind::I8 => 1,
        BufferKind::I16 => 2,
        BufferKind::I32 => 4,
        BufferKind::I64 => 8,
        BufferKind::F32 => 4,
        BufferKind::F64 => 8,
        BufferKind::Date => DATE_TIME_BYTES,
        BufferKind::Time => DATE_TIME_BYTES,
        BufferKind::Timestamp => TIMESTAMP_BYTES,
        BufferKind::Text { max_bytes } => sat_add(max_bytes, 1),
        BufferKind::WText { max_chars } => {
            let n = sat_add(max_chars, 1);
            sat_add(n, n)
        },
        BufferKind::Binary { max_bytes } => max_bytes,
    }
}

/// Bytes one row takes in the transfer buffer, `usize::MAX` if that does not fit. A batch
/// size computed from it then finds that not even one row fits.
pub fn bytes_per_row(columns: &Vec<BufferColumn>) -> (r: usize)
    ensures
        r == saturate(row_bytes(columns@)),
{
    let mut total: usize = 0;
    let mut i: usize = 0;
    while i < columns.len()
        invariant
            0 <= i <= columns@.len(),
            total == saturate(row_bytes(columns@.take(i as int))),
            row_bytes(columns@.take(i as int)) >= 0,
        decreases columns@.len() - i,
    {
        let column = columns[i];
        assert(columns@.take(i + 1).drop_last() =~= columns@.take(i as int));
        let variable = match column.kind {
            BufferKind::Text { .. } | BufferKind::WText { .. } | BufferKind::Binary { .. } => true,
            _ => false,
        };
        let indicator: usize = if column.nullable || variable {
            INDICATOR_BYTES
        } else {
            0
        };
        let cost = sat_add(element_bytes(column.kind), indicator);
        total = sat_add(total, cost);
        i = i + 1;
    }
    assert(columns@.take(i as int) =~= columns@);
    total
}

/// A decimal of scale zero whose precision fits a 32 or 64 bit integer is stored as that
/// integer, plain where decimals are avoided and annotated as decimal otherwise. With any
/// other scale it is stored as text where decimals are avoided. Without avoiding decimals,
/// a decimal is always annotated with its own precision and scale.
pub proof fn lemma_decimal_storage(precision: usize, scale: i16, opts: MappingOptions)
    ensures
        ({
            let storage = map_type(SqlType::Decimal { precision, scale }, opts).unwrap().storage;
            &&& (opts.avoid_decimal && scale == 0 && precision <= 9) ==> storage
                == StorageKind::Int32
            &&& (opts.avoid_decimal && scale == 0 && 9 < precision <= 18) ==> storage
                == StorageKind::Int64
            &&& (opts.avoid_decimal && scale != 0) ==> storage == StorageKind::Utf8
            &&& !opts.avoid_decimal ==> storage == (StorageKind::Decimal { precision, scale })
        }),
{
}

/// Transfer buffer of a column stored as `storage`, for inserting it into the data source.
/// Variable length values take at most `max_len` bytes (characters for text).
pub open spec fn map_storage_spec(storage: StorageKind, use_utf16: bool, max_len: usize) -> ColumnMapping {
    let buffer = match storage {
        StorageKind::Boolean => BufferKind::Bit,
        StorageKind::Int8 => BufferKind::I8,
        StorageKind::Int16 => BufferKind::I16,
        StorageKind::Int32 => BufferKind::I32,
        StorageKind::Int64 => BufferKind::I64,
        StorageKind::Float => BufferKind::F32,
        StorageKind::Double => BufferKind::F64,
        StorageKind::Decimal { precision, .. } => BufferKind::Text {
            max_bytes: decimal_text_len(precision),
        },
        StorageKind::Utf8 => if use_utf16 {
            BufferKind::WText { max_chars: max_len }
        } else {
            BufferKind::Text { max_bytes: max_len }
        },
        StorageKind::FixedLenByteArray { length } => BufferKind::Binary { max_bytes: length },
        StorageKind::ByteArray => BufferKind::Binary { max_bytes: max_len },
        StorageKind::Date => BufferKind::Date,
        StorageKind::Time => BufferKind::Time,
        StorageKind::Timestamp { .. } => BufferKind::Timestamp,
    };
    ColumnMapping { buffer, storage, via_text: storage is Decimal }
}

/// Transfer buffer of a column stored as `storage`, for inserting it into the data source.
/// Decimals are sent as text. Variable length values take at most `max_len` bytes
/// (characters for text).
pub fn map_storage(storage: StorageKind, use_utf16: bool, max_len: usize) -> (r: ColumnMapping)
    ensures
        r == map_storage_spec(storage, use_utf16, max_len),
{
    let buffer = match storage {
        StorageKind::Boolean => BufferKind::Bit,
        StorageKind::Int8 => BufferKind::I8,
        StorageKind::Int16 => BufferKind::I16,
        StorageKind::Int32 => BufferKind::I32,
        StorageKind::Int64 => BufferKind::I64,
        StorageKind::Float => BufferKind::F32,
        StorageKind::Double => BufferKind::F64,
        StorageKind::Decimal { precision, .. } => BufferKind::Text {
            max_bytes: sat_add(precision, 2),
        },
        StorageKind::Utf8 => if use_utf16 {
            BufferKind::WText { max_chars: max_len }
        } else {
            BufferKind::Text { max_bytes: max_len }
        },
        StorageKind::FixedLenByteArray { length } => BufferKind::Binary { max_bytes: length },
        StorageKind::ByteArray => BufferKind::Binary { max_bytes: max_len },
        StorageKind::Date => BufferKind::Date,
        StorageKind::Time => BufferKind::Time,
        StorageKind::Timestamp { .. } => BufferKind::Timestamp,
    };
    let via_text = match storage {
        StorageKind::Decimal { .. } => true,
        _ => false,
    };
    ColumnMapping { buffer, storage, via_text }
}

/// Maximum length of a variable length element kind; zero for fixed width kinds.
pub open spec fn variable_len(kind: BufferKind) -> usize {
    match kind {
        BufferKind::Text { max_bytes } => max_bytes,
        BufferKind::WText { max_chars } => max_chars,
        BufferKind::Binary { max_bytes } => max_bytes,
        _ => 0,
    }
}

/// A column that is not a decimal and is fetched without a detour through text is inserted
/// back through the same kind of transfer buffer it was fetched into, given the same text
/// encoding and the same maximum length.
pub proof fn lemma_layout_round_trip(sql_type: SqlType, opts: MappingOptions)
    requires
        map_type(sql_type, opts) is Some,
        !map_type(sql_type, opts).unwrap().via_text,
        !(sql_type is Decimal),
    ensures
        ({
            let m = map_type(sql_type, opts).unwrap();
            map_storage_spec(m.storage, opts.use_utf16, variable_len(m.buffer)).buffer == m.buffer
        }),
{
}

} // verus!
