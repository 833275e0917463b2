//! Insert direction: statement text for the rows of a columnar file.
use vstd::prelude::*;

verus! {

/// The parts, with `sep` between each two of them.
pub open spec fn join(parts: Seq<Seq<char>>, sep: Seq<char>) -> Seq<char>
    decreases parts.len(),
{
    if parts.len() == 0 {
        Seq::empty()
    } else if parts.len() == 1 {
        parts[0]
    } else {
        join(parts.drop_last(), sep) + sep + parts.last()
    }
}

/// One `?` placeholder for each of `n` columns, separated by `, `.
pub open spec fn placeholders(n: nat) -> Seq<char> {
    join(Seq::new(n, |i: int| "?"@), ", "@)
}

/// `INSERT INTO <table> (<c1>, <c2>, ...) VALUES (?, ?, ...);`. Identifiers are neither quoted
/// nor escaped.
pub open spec fn insert_text(table: Seq<char>, column_names: Seq<Seq<char>>) -> Seq<char> {
    "INSERT INTO "@ + table + " ("@ + join(column_names, ", "@) + ") VALUES ("@ + placeholders(
        column_names.len(),
    ) + ");"@
}

proof fn lemma_join_push(parts: Seq<Seq<char>>, sep: Seq<char>, i: int)
    requires
        0 <= i < parts.len(),
    ensures
        join(parts.take(i + 1), sep) == if i == 0 {
            parts[0]
        } else {
            join(parts.take(i), sep) + sep + parts[i]
        },
{
    assert(parts.take(i + 1).drop_last() =~= parts.take(i));
    if i == 0 {
        assert(parts.take(1).len() == 1);
    }
}

/// Joins the column names, and as many placeholders, with `, ` between them.
fn joined_lists(column_names: &[&str]) -> (r: (String, String))
    ensures
        r.0@ == join(column_names@.map_values(|s: &str| s@), ", "@),
        r.1@ == placeholders(column_names@.len()),
{
    let ghost names = column_names@.map_values(|s: &str| s@);
    let ghost marks = Seq::new(column_names@.len(), |i: int| "?"@);
    let mut columns = String::new();
    let mut values = String::new();
    let mut i: usize = 0;
    while i < column_names.len()
        invariant
            0 <= i <= column_names@.len(),
            names == column_names@.map_values(|s: &str| s@),
            marks == Seq::new(column_names@.len(), |i: int| "?"@),
            columns@ == join(names.take(i as int), ", "@),
            values@ == join(marks.take(i as int), ", "@),
        decreases column_names@.len() - i,
    {
        proof {
            lemma_join_push(names, ", "@, i as int);
            lemma_join_push(marks, ", "@, i as int);
        }
        if i > 0 {
            columns.append(", ");
            values.append(", ");
        }
        columns.append(column_names[i]);
        values.append("?");
        i = i + 1;
    }
    assert(names.take(i as int) =~= names);
    assert(marks.take(i as int) =~= marks);
    (columns, values)
}

/// Text of the statement inserting values for the named columns into `table`.
pub fn insert_statement_text(table: &str, column_names: &[&str]) -> (r: String)
    ensures
        r@ == insert_text(table@, column_names@.map_values(|s: &str| s@)),
{
    let (columns, values) = joined_lists(column_names);
    let mut text = String::from_str("INSERT INTO ");
    text.append(table);
    text.append(" (");
    text.append(columns.as_str());
    text.append(") VALUES (");
    text.append(values.as_str());
    text.append(");");
    text
}

} // verus!
