use odbc2parquet::buffer::{BufferStep, RowsExceedCapacity, TransferBuffer};
use odbc2parquet::insert::insert_statement_text;

#[test]
fn statement_lists_columns_and_placeholders() {
    assert_eq!(
        insert_statement_text("Birthdays", &["name", "birthday"]),
        "INSERT INTO Birthdays (name, birthday) VALUES (?, ?);"
    );
}

#[test]
fn statement_with_one_column() {
    assert_eq!(insert_statement_text("t", &["a"]), "INSERT INTO t (a) VALUES (?);");
}

#[test]
fn statement_without_columns() {
    assert_eq!(insert_statement_text("t", &[]), "INSERT INTO t () VALUES ();");
}

#[test]
fn identifiers_are_not_quoted() {
    assert_eq!(
        insert_statement_text("my table", &["a b", "c"]),
        "INSERT INTO my table (a b, c) VALUES (?, ?);"
    );
}

#[test]
fn buffer_grows_for_larger_row_groups_only() {
    let mut buffer = TransferBuffer::allocate(1);
    let mut steps = Vec::new();
    let mut capacities = Vec::new();
    for size in [1usize, 50, 10, 200] {
        steps.push(buffer.accept_batch(size));
        capacities.push(buffer.capacity());
        assert_eq!(buffer.num_rows(), size);
    }
    assert_eq!(
        steps,
        vec![BufferStep::Reuse, BufferStep::Grow(50), BufferStep::Reuse, BufferStep::Grow(200)]
    );
    assert_eq!(capacities, vec![1, 50, 50, 200]);
}

#[test]
fn buffer_never_has_zero_capacity() {
    assert_eq!(TransferBuffer::allocate(0).capacity(), 1);
    assert_eq!(TransferBuffer::allocate(7).capacity(), 7);
    assert_eq!(TransferBuffer::allocate(7).num_rows(), 0);
}

#[test]
fn occupied_rows_within_capacity() {
    let mut buffer = TransferBuffer::allocate(10);
    assert_eq!(buffer.set_num_rows(10), Ok(()));
    assert_eq!(buffer.num_rows(), 10);
    assert_eq!(
        buffer.set_num_rows(11),
        Err(RowsExceedCapacity { num_rows: 11, capacity: 10 })
    );
    assert_eq!(buffer.num_rows(), 10);
}

#[test]
fn plan_and_grow() {
    let mut buffer = TransferBuffer::allocate(5);
    assert_eq!(buffer.plan(5), BufferStep::Reuse);
    assert_eq!(buffer.plan(6), BufferStep::Grow(6));
    buffer.set_num_rows(3).unwrap();
    buffer.grow_to(8);
    assert_eq!(buffer.capacity(), 8);
    assert_eq!(buffer.num_rows(), 0);
}
