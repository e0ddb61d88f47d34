use vstd::prelude::*;

use crate::error::{ClientError, DecodeError};
use crate::statement::{all_bound, bind_slots, bound_values};
use crate::value::{duplicate_all, Value, ValueKind};

verus! {

/// What reading column `index` of a row holding `values` as a value of kind
/// `expected` gives.
pub open spec fn decode(values: Seq<Value>, index: int, expected: ValueKind) -> Result<
    Value,
    DecodeError,
> {
    if index < 0 || index >= values.len() {
        Err(DecodeError::ColumnOutOfRange { index: index as usize, width: values.len() as usize })
    } else if values[index].kind_of() != expected {
        Err(DecodeError::KindMismatch { expected, found: values[index].kind_of() })
    } else {
        Ok(values[index])
    }
}

/// One returned row: a fixed-width sequence of column values.
pub struct Row {
    values: Vec<Value>,
}

impl View for Row {
    type V = Seq<Value>;

    closed spec fn view(&self) -> Seq<Value> {
        self.values@
    }
}

impl Row {
    /// A row holding `values`, column by column.
    pub fn new(values: Vec<Value>) -> (r: Row)
        ensures
            r@ == values@,
    {
        Row { values }
    }

    /// The number of columns.
    pub fn width(&self) -> (r: usize)
        ensures
            r == self@.len(),
    {
        self.values.len()
    }

    /// An identical copy of this row.
    pub fn duplicate(&self) -> (r: Row)
        ensures
            r@ == self@,
    {
        Row { values: duplicate_all(&self.values) }
    }

    /// The value of column `index`, which must be of kind `expected`.
    pub fn get(&self, index: usize, expected: ValueKind) -> (r: Result<Value, DecodeError>)
        ensures
            r == decode(self@, index as int, expected),
    {
        if index >= self.values.len() {
            return Err(DecodeError::ColumnOutOfRange { index, width: self.values.len() });
        }
        let found = self.values[index].kind();
        if found != expected {
            return Err(DecodeError::KindMismatch { expected, found });
        }
        Ok(self.values[index].duplicate())
    }

    /// The boolean in column `index`.
    pub fn get_bool(&self, index: usize) -> (r: Result<bool, DecodeError>)
        ensures
            match decode(self@, index as int, ValueKind::Boolean) {
                Ok(Value::Boolean(b)) => r == Ok::<bool, DecodeError>(b),
                Ok(_) => false,
                Err(e) => r == Err::<bool, DecodeError>(e),
            },
    {
        match self.get(index, ValueKind::Boolean) {
            Ok(Value::Boolean(b)) => Ok(b),
            Ok(_) => Err(DecodeError::KindMismatch {
                expected: ValueKind::Boolean,
                found: ValueKind::Boolean,
            }),
            Err(e) => Err(e),
        }
    }

    /// The bits of the 32-bit float in column `index`.
    pub fn get_float(&self, index: usize) -> (r: Result<u32, DecodeError>)
        ensures
            match decode(self@, index as int, ValueKind::Float) {
                Ok(Value::Float(bits)) => r == Ok::<u32, DecodeError>(bits),
                Ok(_) => false,
                Err(e) => r == Err::<u32, DecodeError>(e),
            },
    {
        match self.get(index, ValueKind::Float) {
            Ok(Value::Float(bits)) => Ok(bits),
            Ok(_) => Err(DecodeError::KindMismatch {
                expected: ValueKind::Float,
                found: ValueKind::Float,
            }),
            Err(e) => Err(e),
        }
    }

    /// The bits of the 64-bit float in column `index`.
    pub fn get_double(&self, index: usize) -> (r: Result<u64, DecodeError>)
        ensures
            match decode(self@, index as int, ValueKind::Double) {
                Ok(Value::Double(bits)) => r == Ok::<u64, DecodeError>(bits),
                Ok(_) => false,
                Err(e) => r == Err::<u64, DecodeError>(e),
            },
    {
        match self.get(index, ValueKind::Double) {
            Ok(Value::Double(bits)) => Ok(bits),
            Ok(_) => Err(DecodeError::KindMismatch {
                expected: ValueKind::Double,
                found: ValueKind::Double,
            }),
            Err(e) => Err(e),
        }
    }

    /// The 32-bit integer in column `index`.
    pub fn get_int32(&self, index: usize) -> (r: Result<i32, DecodeError>)
        ensures
            match decode(self@, index as int, ValueKind::Int32) {
                Ok(Value::Int32(n)) => r == Ok::<i32, DecodeError>(n),
                Ok(_) => false,
                Err(e) => r == Err::<i32, DecodeError>(e),
            },
    {
        match self.get(index, ValueKind::Int32) {
            Ok(Value::Int32(n)) => Ok(n),
            Ok(_) => Err(DecodeError::KindMismatch {
                expected: ValueKind::Int32,
                found: ValueKind::Int32,
            }),
            Err(e) => Err(e),
        }
    }

    /// The 64-bit integer in column `index`.
    pub fn get_int64(&self, index: usize) -> (r: Result<i64, DecodeError>)
        ensures
            match decode(self@, index as int, ValueKind::Int64) {
                Ok(Value::Int64(n)) => r == Ok::<i64, DecodeError>(n),
                Ok(_) => false,
                Err(e) => r == Err::<i64, DecodeError>(e),
            },
    {
        match self.get(index, ValueKind::Int64) {
            Ok(Value::Int64(n)) => Ok(n),
            Ok(_) => Err(DecodeError::KindMismatch {
                expected: ValueKind::Int64,
                found: ValueKind::Int64,
            }),
            Err(e) => Err(e),
        }
    }

    /// The text in column `index`.
    pub fn get_text(&self, index: usize) -> (r: Result<String, DecodeError>)
        ensures
            match decode(self@, index as int, ValueKind::Text) {
                Ok(Value::Text(s)) => r is Ok && r->Ok_0@ == s@,
                Ok(_) => false,
                Err(e) => r == Err::<String, DecodeError>(e),
            },
    {
        match self.get(index, ValueKind::Text) {
            Ok(Value::Text(s)) => Ok(s),
            Ok(_) => Err(DecodeError::KindMismatch {
                expected: ValueKind::Text,
                found: ValueKind::Text,
            }),
            Err(e) => Err(e),
        }
    }
}

/// Whether every row of `rows` has `width` columns.
pub open spec fn fixed_width(rows: Seq<Seq<Value>>, width: nat) -> bool {
    forall|i: int| 0 <= i < rows.len() ==> (#[trigger] rows[i]).len() == width
}

/// The abstract content of a result: its width and its rows.
pub struct ResultView {
    pub width: nat,
    pub rows: Seq<Seq<Value>>,
}

/// The rows that one statement returned, all of one width.
pub struct QueryResult {
    width: usize,
    rows: Vec<Row>,
}

impl View for QueryResult {
    type V = ResultView;

    closed spec fn view(&self) -> ResultView {
        ResultView { width: self.width as nat, rows: self.rows@.map_values(|r: Row| r@) }
    }
}

impl QueryResult {
    /// Every row has the result's width.
    pub open spec fn wf(&self) -> bool {
        fixed_width(self@.rows, self@.width)
    }

    /// A result without rows, as a statement that returns none gives.
    pub fn empty(width: usize) -> (r: QueryResult)
        ensures
            r.wf(),
            r@.width == width,
            r@.rows.len() == 0,
    {
        let r = QueryResult { width, rows: Vec::new() };
        assert(r@.rows =~= Seq::<Seq<Value>>::empty());
        r
    }

    /// A result of `width` columns holding `rows`. A row of another width is
    /// refused: the error names the first such row.
    pub fn new(width: usize, rows: Vec<Vec<Value>>) -> (r: Result<QueryResult, DecodeError>)
        ensures
            r is Ok <==> fixed_width(rows@.map_values(|v: Vec<Value>| v@), width as nat),
            r matches Ok(res) ==> res.wf() && res@.width == width && res@.rows == rows@.map_values(
                |v: Vec<Value>| v@,
            ),
            r matches Err(e) ==> exists|i: int|
                0 <= i < rows@.len() && rows@[i]@.len() != width && (forall|j: int|
                    0 <= j < i ==> (#[trigger] rows@[j])@.len() == width) && e
                    == (DecodeError::RowWidth { row: i as usize, width }),
    {
        let ghost given = rows@.map_values(|v: Vec<Value>| v@);
        let mut out: Vec<Row> = Vec::new();
        let mut i: usize = 0;
        while i < rows.len()
            invariant
                given == rows@.map_values(|v: Vec<Value>| v@),
                i <= rows@.len(),
                out@.len() == i,
                forall|k: int| 0 <= k < i ==> (#[trigger] out@[k])@ == rows@[k]@,
                forall|k: int| 0 <= k < i ==> (#[trigger] rows@[k])@.len() == width,
            decreases rows@.len() - i,
        {
            if rows[i].len() != width {
                assert(!fixed_width(given, width as nat)) by {
                    assert(given[i as int].len() != width);
                }
                return Err(DecodeError::RowWidth { row: i, width });
            }
            out.push(Row::new(duplicate_all(&rows[i])));
            i = i + 1;
        }
        let r = QueryResult { width, rows: out };
        assert(r@.rows =~= given);
        Ok(r)
    }

    /// The number of columns of each row.
    pub fn width(&self) -> (r: usize)
        ensures
            r == self@.width,
    {
        self.width
    }

    /// The number of rows.
    pub fn row_count(&self) -> (r: usize)
        ensures
            r == self@.rows.len(),
    {
        self.rows.len()
    }

    /// The row at position `index`, if there is one.
    pub fn row(&self, index: usize) -> (r: Option<&Row>)
        ensures
            r is Some <==> index < self@.rows.len(),
            r is Some ==> r->0@ == self@.rows[index as int],
    {
        if index < self.rows.len() {
            Some(&self.rows[index])
        } else {
            None
        }
    }

    /// A forward-only cursor over the rows, positioned before the first.
    pub fn into_rows(self) -> (r: RowCursor)
        ensures
            r.wf(),
            r@.rows == self@.rows,
            r@.position == 0,
    {
        RowCursor { rows: self.rows, position: 0 }
    }
}

/// The abstract state of a cursor: the rows and how many were handed out.
pub struct CursorView {
    pub rows: Seq<Seq<Value>>,
    pub position: nat,
}

/// A single-pass cursor over the rows of a result.
pub struct RowCursor {
    rows: Vec<Row>,
    position: usize,
}

impl View for RowCursor {
    type V = CursorView;

    closed spec fn view(&self) -> CursorView {
        CursorView { rows: self.rows@.map_values(|r: Row| r@), position: self.position as nat }
    }
}

impl RowCursor {
    /// The cursor never stands past the last row.
    pub closed spec fn wf(&self) -> bool {
        self.position <= self.rows@.len()
    }

    /// The next row, if any is left; the cursor then moves past it.
    pub fn next_row(&mut self) -> (r: Option<Row>)
        requires
            old(self).wf(),
        ensures
            final(self).wf(),
            final(self)@.rows == old(self)@.rows,
            old(self)@.position < old(self)@.rows.len() ==> r is Some && r->0@ == old(
                self,
            )@.rows[old(self)@.position as int] && final(self)@.position == old(self)@.position
                + 1,
            old(self)@.position >= old(self)@.rows.len() ==> r is None && final(self)@ == old(
                self,
            )@,
    {
        if self.position < self.rows.len() {
            let row = self.rows[self.position].duplicate();
            self.position = self.position + 1;
            Some(row)
        } else {
            None
        }
    }
}

/// A value bound at an in-range index of a statement, once every parameter is
/// bound, is what a row holding the statement's values gives back at that
/// column, read as the value's own kind.
pub proof fn lemma_bound_value_round_trips(params: Seq<Option<Value>>, index: int, value: Value)
    requires
        0 <= index < params.len(),
        all_bound(bind_slots(params, index, value)),
    ensures
        decode(bound_values(bind_slots(params, index, value)), index, value.kind_of()) == Ok::<
            Value,
            DecodeError,
        >(value),
{
    let slots = bind_slots(params, index, value);
    assert(slots[index] == Some(value));
    assert(bound_values(slots)[index] == value);
}

/// Reading a column at or past the row's width fails with
/// `ColumnOutOfRange`, whatever kind is asked for.
pub proof fn lemma_column_past_width_fails(values: Seq<Value>, index: int, expected: ValueKind)
    requires
        index >= values.len(),
    ensures
        decode(values, index, expected) == Err::<Value, DecodeError>(
            DecodeError::ColumnOutOfRange { index: index as usize, width: values.len() as usize },
        ),
{
}

} // verus!
