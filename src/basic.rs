use vstd::prelude::*;

use crate::error::DecodeError;
use crate::result::{decode, QueryResult};
use crate::statement::{bound_values, Consistency, Statement};
use crate::value::{Value, ValueKind};

verus! {

/// Creates the `examples` keyspace, with simple replication on one replica.
pub const CREATE_KEYSPACE_QUERY: &'static str = "CREATE KEYSPACE examples WITH replication = { 'class': 'SimpleStrategy', 'replication_factor': '1' };";

/// Creates the `examples.basic` table, keyed by text, with one column of
/// each scalar kind.
pub const CREATE_TABLE_QUERY: &'static str = "CREATE TABLE examples.basic (key text, bln boolean, flt float, dbl double, i32 int, i64 bigint, PRIMARY KEY (key));";

/// Inserts one row of `examples.basic`; its six parameters follow the
/// column list.
pub const INSERT_BASIC_QUERY: &'static str = "INSERT INTO examples.basic (key, bln, flt, dbl, i32, i64) VALUES (?, ?, ?, ?, ?, ?);";

/// Selects the row of `examples.basic` with the key given as parameter.
pub const SELECT_BASIC_QUERY: &'static str = "SELECT * FROM examples.basic WHERE key = ?;";

/// The scalar columns of one row of `examples.basic`. The floats are held
/// as their IEEE-754 bits.
#[derive(Clone, Copy, Debug, PartialEq, Eq, Structural)]
pub struct BasicRow {
    pub bln: bool,
    pub flt: u32,
    pub dbl: u64,
    pub i32: i32,
    pub i64: i64,
}

/// The parameter slots of the insert of `row` under `key`, in the order of
/// the insert's column list.
pub open spec fn insert_basic_params(key: String, row: BasicRow) -> Seq<Option<Value>> {
    seq![
        Some(Value::Text(key)),
        Some(Value::Boolean(row.bln)),
        Some(Value::Float(row.flt)),
        Some(Value::Double(row.dbl)),
        Some(Value::Int32(row.i32)),
        Some(Value::Int64(row.i64)),
    ]
}

/// The columns of `examples.basic` in the order in which a `SELECT *`
/// returns them, given them in the order of the insert's column list: the
/// key first, then the other columns by name (bln, dbl, flt, i32, i64).
pub open spec fn select_order(inserted: Seq<Value>) -> Seq<Value> {
    seq![inserted[0], inserted[1], inserted[3], inserted[2], inserted[4], inserted[5]]
}

/// What decoding the rows `rows` of a select on `examples.basic` gives:
/// nothing without a row, else the first row's columns, or the first error
/// met in reading them.
pub open spec fn basic_outcome(rows: Seq<Seq<Value>>) -> Result<Option<BasicRow>, DecodeError> {
    if rows.len() == 0 {
        Ok(None)
    } else {
        let first = rows[0];
        let bln = decode(first, 1, ValueKind::Boolean);
        let dbl = decode(first, 2, ValueKind::Double);
        let flt = decode(first, 3, ValueKind::Float);
        let small = decode(first, 4, ValueKind::Int32);
        let big = decode(first, 5, ValueKind::Int64);
        if bln is Err {
            Err(bln->Err_0)
        } else if dbl is Err {
            Err(dbl->Err_0)
        } else if flt is Err {
            Err(flt->Err_0)
        } else if small is Err {
            Err(small->Err_0)
        } else if big is Err {
            Err(big->Err_0)
        } else {
            Ok(
                Some(
                    BasicRow {
                        bln: bln->Ok_0->Boolean_0,
                        flt: flt->Ok_0->Float_0,
                        dbl: dbl->Ok_0->Double_0,
                        i32: small->Ok_0->Int32_0,
                        i64: big->Ok_0->Int64_0,
                    },
                ),
            )
        }
    }
}

/// The statement that creates the `examples` keyspace.
pub fn create_keyspace_statement() -> (r: Statement)
    ensures
        r@.query == CREATE_KEYSPACE_QUERY@,
        r@.consistency == Consistency::One,
        r@.params.len() == 0,
{
    Statement::simple(CREATE_KEYSPACE_QUERY.to_owned())
}

/// The statement that creates the `examples.basic` table.
pub fn create_table_statement() -> (r: Statement)
    ensures
        r@.query == CREATE_TABLE_QUERY@,
        r@.consistency == Consistency::One,
        r@.params.len() == 0,
{
    Statement::simple(CREATE_TABLE_QUERY.to_owned())
}

/// The statement that inserts `row` under `key`, every parameter bound.
pub fn insert_basic_statement(key: String, row: &BasicRow) -> (r: Statement)
    ensures
        r@.query == INSERT_BASIC_QUERY@,
        r@.consistency == Consistency::One,
        r@.params == insert_basic_params(key, *row),
{
    let ghost text = key;
    let mut statement = Statement::new(INSERT_BASIC_QUERY.to_owned(), Consistency::One, 6);
    let _ = statement.bind_text(0, key);
    let _ = statement.bind_bool(1, row.bln);
    let _ = statement.bind_float(2, row.flt);
    let _ = statement.bind_double(3, row.dbl);
    let _ = statement.bind_int32(4, row.i32);
    let _ = statement.bind_int64(5, row.i64);
    assert(statement@.params =~= insert_basic_params(text, *row));
    statement
}

/// The statement that selects the row of `examples.basic` under `key`.
pub fn select_basic_statement(key: String) -> (r: Statement)
    ensures
        r@.query == SELECT_BASIC_QUERY@,
        r@.consistency == Consistency::One,
        r@.params == seq![Some(Value::Text(key))],
{
    let ghost text = key;
    let mut statement = Statement::new(SELECT_BASIC_QUERY.to_owned(), Consistency::One, 1);
    let _ = statement.bind_text(0, key);
    assert(statement@.params =~= seq![Some(Value::Text(text))]);
    statement
}

/// The scalar columns of the first row of a select on `examples.basic`, or
/// `None` when it returned no row.
pub fn decode_basic(result: &QueryResult) -> (r: Result<Option<BasicRow>, DecodeError>)
    requires
        result.wf(),
    ensures
        r == basic_outcome(result@.rows),
{
    let first = match result.row(0) {
        Some(row) => row,
        None => return Ok(None),
    };
    let bln = match first.get_bool(1) {
        Ok(b) => b,
        Err(e) => return Err(e),
    };
    let dbl = match first.get_double(2) {
        Ok(bits) => bits,
        Err(e) => return Err(e),
    };
    let flt = match first.get_float(3) {
        Ok(bits) => bits,
        Err(e) => return Err(e),
    };
    let small = match first.get_int32(4) {
        Ok(n) => n,
        Err(e) => return Err(e),
    };
    let big = match first.get_int64(5) {
        Ok(n) => n,
        Err(e) => return Err(e),
    };
    Ok(Some(BasicRow { bln, flt, dbl, i32: small, i64: big }))
}

/// A row inserted under a key, stored by the server and selected back, is
/// decoded into the row that was inserted, each float bit for bit.
pub proof fn lemma_inserted_row_selects_back(key: String, row: BasicRow, later: Seq<Seq<Value>>)
    ensures
        basic_outcome(seq![select_order(bound_values(insert_basic_params(key, row)))] + later)
            == Ok::<Option<BasicRow>, DecodeError>(Some(row)),
{
    let values = bound_values(insert_basic_params(key, row));
    let rows = seq![select_order(values)] + later;
    assert(rows[0] == select_order(values));
    assert(values[1] == Value::Boolean(row.bln));
    assert(values[2] == Value::Float(row.flt));
    assert(values[3] == Value::Double(row.dbl));
    assert(values[4] == Value::Int32(row.i32));
    assert(values[5] == Value::Int64(row.i64));
}

} // verus!
