use odbc2parquet::mapping::{
    bytes_per_row, element_bytes, map_column, map_sql_type, map_storage, BufferColumn,
    BufferKind, ColumnDescriptor, ColumnMapping, MappingOptions, SqlType, StorageKind,
};

fn options() -> MappingOptions {
    MappingOptions {
        use_utf16: false,
        column_length_limit: 4096,
        prefer_varbinary: false,
        avoid_decimal: false,
        driver_does_not_support_64bit_integers: false,
    }
}

fn avoiding() -> MappingOptions {
    MappingOptions { avoid_decimal: true, ..options() }
}

#[test]
fn decimal_scale_zero_avoided_is_plain_integer() {
    let small = map_sql_type(SqlType::Decimal { precision: 5, scale: 0 }, avoiding()).unwrap();
    assert_eq!(small.storage, StorageKind::Int32);
    assert_eq!(small.buffer, BufferKind::I32);
    let large = map_sql_type(SqlType::Decimal { precision: 15, scale: 0 }, avoiding()).unwrap();
    assert_eq!(large.storage, StorageKind::Int64);
    assert_eq!(large.buffer, BufferKind::I64);
}

#[test]
fn decimal_with_scale_avoided_is_text() {
    let m = map_sql_type(SqlType::Decimal { precision: 5, scale: 2 }, avoiding()).unwrap();
    assert_eq!(
        m,
        ColumnMapping {
            buffer: BufferKind::Text { max_bytes: 7 },
            storage: StorageKind::Utf8,
            via_text: false
        }
    );
}

#[test]
fn decimal_not_avoided_keeps_precision_and_scale() {
    let m = map_sql_type(SqlType::Decimal { precision: 5, scale: 0 }, options()).unwrap();
    assert_eq!(m.storage, StorageKind::Decimal { precision: 5, scale: 0 });
    let m = map_sql_type(SqlType::Decimal { precision: 5, scale: 2 }, options()).unwrap();
    assert_eq!(m.storage, StorageKind::Decimal { precision: 5, scale: 2 });
    assert_eq!(m.buffer, BufferKind::Text { max_bytes: 7 });
    assert!(m.via_text);
}

#[test]
fn big_int_as_text_without_64_bit_binding() {
    let opts = MappingOptions { driver_does_not_support_64bit_integers: true, ..options() };
    let m = map_sql_type(SqlType::BigInt, opts).unwrap();
    assert_eq!(m.buffer, BufferKind::Text { max_bytes: 20 });
    assert_eq!(m.storage, StorageKind::Int64);
    assert!(m.via_text);
    let m = map_sql_type(SqlType::BigInt, options()).unwrap();
    assert_eq!(m.buffer, BufferKind::I64);
    assert!(!m.via_text);
}

#[test]
fn text_width_follows_encoding_and_limit() {
    let narrow = map_sql_type(SqlType::Text { length: Some(50) }, options()).unwrap();
    assert_eq!(narrow.buffer, BufferKind::Text { max_bytes: 50 });
    let opts = MappingOptions { use_utf16: true, column_length_limit: 10, ..options() };
    let wide = map_sql_type(SqlType::Text { length: Some(50) }, opts).unwrap();
    assert_eq!(wide.buffer, BufferKind::WText { max_chars: 10 });
    assert_eq!(element_bytes(wide.buffer), 22);
    let unknown = map_sql_type(SqlType::Text { length: None }, options()).unwrap();
    assert_eq!(unknown.buffer, BufferKind::Text { max_bytes: 4096 });
    assert_eq!(unknown.storage, StorageKind::Utf8);
}

#[test]
fn binary_fixed_or_variable() {
    let fixed = map_sql_type(SqlType::Binary { length: Some(16) }, options()).unwrap();
    assert_eq!(fixed.storage, StorageKind::FixedLenByteArray { length: 16 });
    let opts = MappingOptions { prefer_varbinary: true, ..options() };
    let var = map_sql_type(SqlType::Binary { length: Some(16) }, opts).unwrap();
    assert_eq!(var.storage, StorageKind::ByteArray);
    assert_eq!(var.buffer, BufferKind::Binary { max_bytes: 16 });
}

#[test]
fn unsupported_type_names_the_column() {
    let column = ColumnDescriptor {
        name: "geometry".to_string(),
        sql_type: SqlType::Other { type_code: -151 },
        nullable: true,
    };
    let e = map_column(&column, options()).unwrap_err();
    assert_eq!(e.column_name, "geometry");
    assert_eq!(e.type_code, -151);
    let ok = ColumnDescriptor { name: "id".to_string(), sql_type: SqlType::Integer, nullable: false };
    assert_eq!(map_column(&ok, options()).unwrap().storage, StorageKind::Int32);
}

#[test]
fn row_cost_adds_strides_and_indicators() {
    let columns = vec![
        BufferColumn { kind: BufferKind::I32, nullable: false },
        BufferColumn { kind: BufferKind::I64, nullable: true },
        BufferColumn { kind: BufferKind::Text { max_bytes: 10 }, nullable: false },
        BufferColumn { kind: BufferKind::Timestamp, nullable: false },
    ];
    assert_eq!(bytes_per_row(&columns), 4 + (8 + 8) + (11 + 8) + 16);
    assert_eq!(bytes_per_row(&Vec::new()), 0);
}

#[test]
fn row_cost_saturates() {
    let columns = vec![
        BufferColumn { kind: BufferKind::Binary { max_bytes: usize::MAX - 4 }, nullable: false },
        BufferColumn { kind: BufferKind::I32, nullable: false },
    ];
    assert_eq!(bytes_per_row(&columns), usize::MAX);
    assert_eq!(element_bytes(BufferKind::WText { max_chars: usize::MAX }), usize::MAX);
}

#[test]
fn storage_to_insert_buffer() {
    assert_eq!(map_storage(StorageKind::Utf8, true, 30).buffer, BufferKind::WText { max_chars: 30 });
    assert_eq!(map_storage(StorageKind::Utf8, false, 30).buffer, BufferKind::Text { max_bytes: 30 });
    let d = map_storage(StorageKind::Decimal { precision: 10, scale: 3 }, false, 30);
    assert_eq!(d.buffer, BufferKind::Text { max_bytes: 12 });
    assert!(d.via_text);
    assert_eq!(
        map_storage(StorageKind::FixedLenByteArray { length: 4 }, false, 30).buffer,
        BufferKind::Binary { max_bytes: 4 }
    );
    assert_eq!(map_storage(StorageKind::Int16, false, 30).buffer, BufferKind::I16);
}
