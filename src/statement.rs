use vstd::prelude::*;

use crate::error::ClientError;
use crate::value::Value;

verus! {

/// How many replicas must acknowledge an operation before it completes.
#[derive(Clone, Copy, Debug, PartialEq, Eq, Structural)]
pub enum Consistency {
    One,
    Quorum,
    All,
}

impl Default for Consistency {
    /// A single replica's acknowledgement.
    fn default() -> (r: Consistency)
        ensures
            r == Consistency::One,
    {
        Consistency::One
    }
}

/// The abstract content of a statement: its query text, its consistency
/// level and one slot per declared parameter, `None` while unbound.
pub struct StatementView {
    pub query: Seq<char>,
    pub consistency: Consistency,
    pub params: Seq<Option<Value>>,
}

/// Whether every parameter slot holds a value.
pub open spec fn all_bound(params: Seq<Option<Value>>) -> bool {
    forall|i: int| 0 <= i < params.len() ==> (#[trigger] params[i]) is Some
}

/// The values of fully bound parameter slots, in position order.
pub open spec fn bound_values(params: Seq<Option<Value>>) -> Seq<Value> {
    params.map_values(|p: Option<Value>| p->0)
}

/// The first unbound slot at or after `start`, or the slot count when every
/// slot from there on is bound.
pub open spec fn first_unbound_from(params: Seq<Option<Value>>, start: int) -> int
    decreases params.len() - start,
{
    if start < 0 || start >= params.len() {
        params.len() as int
    } else if params[start] is None {
        start
    } else {
        first_unbound_from(params, start + 1)
    }
}

/// The first unbound slot, or the slot count when every slot is bound.
pub open spec fn first_unbound(params: Seq<Option<Value>>) -> int {
    first_unbound_from(params, 0)
}

/// What binding `value` at `index` does to the slots: the slot is filled when
/// the index is in range, and nothing changes otherwise.
pub open spec fn bind_slots(params: Seq<Option<Value>>, index: int, value: Value) -> Seq<
    Option<Value>,
> {
    if 0 <= index < params.len() {
        params.update(index, Some(value))
    } else {
        params
    }
}

/// A query text with its consistency level and its position-indexed
/// parameters. The parameter count is fixed when the statement is made.
pub struct Statement {
    query: String,
    consistency: Consistency,
    params: Vec<Option<Value>>,
}

impl View for Statement {
    type V = StatementView;

    closed spec fn view(&self) -> StatementView {
        StatementView { query: self.query@, consistency: self.consistency, params: self.params@ }
    }
}

impl Statement {
    /// A statement with `parameter_count` unbound parameters.
    pub fn new(query: String, consistency: Consistency, parameter_count: usize) -> (r: Statement)
        ensures
            r@.query == query@,
            r@.consistency == consistency,
            r@.params == Seq::new(parameter_count as nat, |i: int| None::<Value>),
    {
        let mut params: Vec<Option<Value>> = Vec::new();
        let mut i: usize = 0;
        while i < parameter_count
            invariant
                i <= parameter_count,
                params@ == Seq::new(i as nat, |k: int| None::<Value>),
            decreases parameter_count - i,
        {
            params.push(None);
            i = i + 1;
            assert(params@ =~= Seq::new(i as nat, |k: int| None::<Value>));
        }
        Statement { query, consistency, params }
    }

    /// A statement without parameters, at consistency level `One`.
    pub fn simple(query: String) -> (r: Statement)
        ensures
            r@.query == query@,
            r@.consistency == Consistency::One,
            r@.params.len() == 0,
    {
        Statement::new(query, Consistency::One, 0)
    }

    /// Binds `value` at the zero-based `index`. An index that is not below
    /// the parameter count is refused and leaves the statement unchanged.
    pub fn bind(&mut self, index: usize, value: Value) -> (r: Result<(), ClientError>)
        ensures
            final(self)@.query == old(self)@.query,
            final(self)@.consistency == old(self)@.consistency,
            final(self)@.params == bind_slots(old(self)@.params, index as int, value),
            r is Ok <==> index < old(self)@.params.len(),
            r is Err ==> r == Err::<(), ClientError>(
                ClientError::BindIndexOutOfRange { index, count: old(self)@.params.len() as usize },
            ),
    {
        if index >= self.params.len() {
            return Err(ClientError::BindIndexOutOfRange { index, count: self.params.len() });
        }
        self.params.set(index, Some(value));
        Ok(())
    }

    /// Binds a boolean at `index`.
    pub fn bind_bool(&mut self, index: usize, value: bool) -> (r: Result<(), ClientError>)
        ensures
            final(self)@.query == old(self)@.query,
            final(self)@.consistency == old(self)@.consistency,
            final(self)@.params == bind_slots(old(self)@.params, index as int, Value::Boolean(value)),
            r is Ok <==> index < old(self)@.params.len(),
            r is Err ==> r == Err::<(), ClientError>(
                ClientError::BindIndexOutOfRange { index, count: old(self)@.params.len() as usize },
            ),
    {
        self.bind(index, Value::Boolean(value))
    }

    /// Binds a 32-bit float, given as its IEEE-754 bits, at `index`.
    pub fn bind_float(&mut self, index: usize, bits: u32) -> (r: Result<(), ClientError>)
        ensures
            final(self)@.query == old(self)@.query,
            final(self)@.consistency == old(self)@.consistency,
            final(self)@.params == bind_slots(old(self)@.params, index as int, Value::Float(bits)),
            r is Ok <==> index < old(self)@.params.len(),
            r is Err ==> r == Err::<(), ClientError>(
                ClientError::BindIndexOutOfRange { index, count: old(self)@.params.len() as usize },
            ),
    {
        self.bind(index, Value::Float(bits))
    }

    /// Binds a 64-bit float, given as its IEEE-754 bits, at `index`.
    pub fn bind_double(&mut self, index: usize, bits: u64) -> (r: Result<(), ClientError>)
        ensures
            final(self)@.query == old(self)@.query,
            final(self)@.consistency == old(self)@.consistency,
            final(self)@.params == bind_slots(old(self)@.params, index as int, Value::Double(bits)),
            r is Ok <==> index < old(self)@.params.len(),
            r is Err ==> r == Err::<(), ClientError>(
                ClientError::BindIndexOutOfRange { index, count: old(self)@.params.len() as usize },
            ),
    {
        self.bind(index, Value::Double(bits))
    }

    /// Binds a 32-bit integer at `index`.
    pub fn bind_int32(&mut self, index: usize, value: i32) -> (r: Result<(), ClientError>)
        ensures
            final(self)@.query == old(self)@.query,
            final(self)@.consistency == old(self)@.consistency,
            final(self)@.params == bind_slots(old(self)@.params, index as int, Value::Int32(value)),
            r is Ok <==> index < old(self)@.params.len(),
            r is Err ==> r == Err::<(), ClientError>(
                ClientError::BindIndexOutOfRange { index, count: old(self)@.params.len() as usize },
            ),
    {
        self.bind(index, Value::Int32(value))
    }

    /// Binds a 64-bit integer at `index`.
    pub fn bind_int64(&mut self, index: usize, value: i64) -> (r: Result<(), ClientError>)
        ensures
            final(self)@.query == old(self)@.query,
            final(self)@.consistency == old(self)@.consistency,
            final(self)@.params == bind_slots(old(self)@.params, index as int, Value::Int64(value)),
            r is Ok <==> index < old(self)@.params.len(),
            r is Err ==> r == Err::<(), ClientError>(
                ClientError::BindIndexOutOfRange { index, count: old(self)@.params.len() as usize },
            ),
    {
        self.bind(index, Value::Int64(value))
    }

    /// Binds a text value at `index`.
    pub fn bind_text(&mut self, index: usize, value: String) -> (r: Result<(), ClientError>)
        ensures
            final(self)@.query == old(self)@.query,
            final(self)@.consistency == old(self)@.consistency,
            final(self)@.params == bind_slots(old(self)@.params, index as int, Value::Text(value)),
            r is Ok <==> index < old(self)@.params.len(),
            r is Err ==> r == Err::<(), ClientError>(
                ClientError::BindIndexOutOfRange { index, count: old(self)@.params.len() as usize },
            ),
    {
        self.bind(index, Value::Text(value))
    }

    /// The declared number of parameters.
    pub fn parameter_count(&self) -> (r: usize)
        ensures
            r == self@.params.len(),
    {
        self.params.len()
    }

    /// The query text.
    pub fn query(&self) -> (r: &String)
        ensures
            r@ == self@.query,
    {
        &self.query
    }

    /// The consistency level.
    pub fn consistency(&self) -> (r: Consistency)
        ensures
            r == self@.consistency,
    {
        self.consistency
    }

    /// The value bound at `index`, if the index is in range and bound.
    pub fn parameter(&self, index: usize) -> (r: Option<&Value>)
        ensures
            r is Some <==> index < self@.params.len() && self@.params[index as int] is Some,
            r is Some ==> self@.params[index as int] == Some(*r->0),
    {
        if index < self.params.len() {
            match &self.params[index] {
                Some(v) => Some(v),
                None => None,
            }
        } else {
            None
        }
    }

    /// Takes the statement apart into its query, consistency level and
    /// parameter values. Every parameter must be bound; otherwise the error
    /// names the first unbound index.
    pub fn into_parts(self) -> (r: Result<(String, Consistency, Vec<Value>), ClientError>)
        ensures
            r is Ok <==> all_bound(self@.params),
            r matches Ok((q, c, vs)) ==> q@ == self@.query && c == self@.consistency && vs@
                == bound_values(self@.params),
            r matches Err(e) ==> first_unbound(self@.params) < self@.params.len() && e == (
            ClientError::UnboundParameter { index: first_unbound(self@.params) as usize }),
    {
        let mut values: Vec<Value> = Vec::new();
        let mut i: usize = 0;
        while i < self.params.len()
            invariant
                i <= self@.params.len(),
                self@.params == self.params@,
                forall|k: int| 0 <= k < i ==> (#[trigger] self@.params[k]) is Some,
                first_unbound(self@.params) == first_unbound_from(self@.params, i as int),
                values@ == bound_values(self@.params.subrange(0, i as int)),
            decreases self@.params.len() - i,
        {
            match &self.params[i] {
                Some(v) => {
                    values.push(v.duplicate());
                    assert(bound_values(self@.params.subrange(0, i + 1)) =~= bound_values(
                        self@.params.subrange(0, i as int),
                    ).push(*v));
                },
                None => {
                    assert(self@.params[i as int] is None);
                    return Err(ClientError::UnboundParameter { index: i });
                },
            }
            i = i + 1;
        }
        assert(self@.params.subrange(0, self@.params.len() as int) =~= self@.params);
        Ok((self.query, self.consistency, values))
    }
}

/// Binding at an index at or past the parameter count changes no slot.
pub proof fn lemma_bind_out_of_range_changes_nothing(
    params: Seq<Option<Value>>,
    index: int,
    value: Value,
)
    requires
        index >= params.len(),
    ensures
        bind_slots(params, index, value) == params,
{
}

} // verus!
