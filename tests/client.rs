use cql_client::{
    create_keyspace_statement, create_table_statement, decode_basic, insert_basic_statement,
    select_basic_statement, BasicRow, CREATE_KEYSPACE_QUERY, INSERT_BASIC_QUERY,
    SELECT_BASIC_QUERY,
};
use cql_client::{
    ClientError, ClusterConfig, ConnectEvent, Consistency, DecodeError, Future, QueryResult,
    Response, Row, Session, Statement, Value, ValueKind, DEFAULT_CONTACT_POINT,
    MAX_PROTOCOL_VERSION, MIN_PROTOCOL_VERSION,
};

fn open_session(connections: u32) -> Session {
    let config = ClusterConfig::localhost();
    let mut future = Session::connect(&config);
    assert!(!future.is_ready());
    Session::finish_connect(
        &mut future,
        ConnectEvent::Established { connections, protocol_version: MAX_PROTOCOL_VERSION },
    )
    .unwrap();
    future.into_outcome().unwrap().unwrap()
}

fn run(session: &mut Session, statement: Statement, response: Response) -> Future<QueryResult> {
    let (_request, mut future) = session.execute(statement).unwrap();
    session.complete(&mut future, response).unwrap();
    future
}

fn echo_row(values: Vec<Value>) -> Row {
    Row::new(values)
}

#[test]
fn round_trip_every_kind() {
    let mut statement = Statement::new("INSERT".to_string(), Consistency::One, 6);
    statement.bind_text(0, "key".to_string()).unwrap();
    statement.bind_bool(1, true).unwrap();
    statement.bind_float(2, 0.0002f32.to_bits()).unwrap();
    statement.bind_double(3, 0.001f64.to_bits()).unwrap();
    statement.bind_int32(4, -7).unwrap();
    statement.bind_int64(5, i64::MIN).unwrap();
    let mut session = open_session(1);
    let (request, _future) = session.execute(statement).unwrap();
    assert_eq!(request.values.len(), 6);
    let row = echo_row(request.values);
    assert_eq!(row.get_text(0).unwrap(), "key");
    assert_eq!(row.get_bool(1), Ok(true));
    assert_eq!(f32::from_bits(row.get_float(2).unwrap()), 0.0002f32);
    assert_eq!(f64::from_bits(row.get_double(3).unwrap()), 0.001f64);
    assert_eq!(row.get_int32(4), Ok(-7));
    assert_eq!(row.get_int64(5), Ok(i64::MIN));
}

#[test]
fn round_trip_extreme_floats_bit_exact() {
    let mut statement = Statement::new("q".to_string(), Consistency::Quorum, 2);
    statement.bind_float(0, f32::MAX.to_bits()).unwrap();
    statement.bind_double(1, (-0.0f64).to_bits()).unwrap();
    let (_, _, values) = statement.into_parts().unwrap();
    let row = Row::new(values);
    assert_eq!(row.get_float(0), Ok(f32::MAX.to_bits()));
    assert_eq!(row.get_double(1), Ok((-0.0f64).to_bits()));
}

#[test]
fn bind_past_count_is_refused() {
    let mut statement = Statement::new("q".to_string(), Consistency::One, 1);
    let r = statement.bind_int32(1, 5);
    assert!(matches!(r, Err(ClientError::BindIndexOutOfRange { index: 1, count: 1 })));
    assert!(statement.parameter(0).is_none());
    assert_eq!(statement.parameter_count(), 1);
    let mut none = Statement::simple("q".to_string());
    assert!(matches!(
        none.bind_bool(0, true),
        Err(ClientError::BindIndexOutOfRange { index: 0, count: 0 })
    ));
}

#[test]
fn unbound_parameter_never_goes_out() {
    let mut statement = Statement::new("q".to_string(), Consistency::All, 3);
    statement.bind_int32(0, 1).unwrap();
    statement.bind_int32(2, 3).unwrap();
    let mut session = open_session(2);
    let r = session.execute(statement);
    assert!(matches!(r, Err(ClientError::UnboundParameter { index: 1 })));
    assert_eq!(session.pending_count(), 0);
}

#[test]
fn column_past_width_is_an_error() {
    let row = Row::new(vec![Value::Int32(1), Value::Boolean(false)]);
    assert_eq!(row.width(), 2);
    assert_eq!(
        row.get_int32(2),
        Err(DecodeError::ColumnOutOfRange { index: 2, width: 2 })
    );
    assert!(matches!(
        row.get(usize::MAX, ValueKind::Int32),
        Err(DecodeError::ColumnOutOfRange { index: usize::MAX, width: 2 })
    ));
}

#[test]
fn column_of_another_kind_is_an_error() {
    let row = Row::new(vec![Value::Int32(1), Value::Text("a".to_string())]);
    assert_eq!(
        row.get_int64(0),
        Err(DecodeError::KindMismatch { expected: ValueKind::Int64, found: ValueKind::Int32 })
    );
    assert_eq!(
        row.get_bool(1),
        Err(DecodeError::KindMismatch { expected: ValueKind::Boolean, found: ValueKind::Text })
    );
    assert!(matches!(row.get(1, ValueKind::Text), Ok(Value::Text(s)) if s == "a"));
}

#[test]
fn resolved_future_reads_the_same_outcome() {
    let mut future: Future<u32> = Future::pending();
    assert!(future.wait().is_none());
    future.resolve(Ok(7)).unwrap();
    assert!(matches!(future.wait(), Some(Ok(7))));
    assert!(matches!(future.wait(), Some(Ok(7))));
    assert!(matches!(future.resolve(Ok(8)), Err(ClientError::Resource)));
    assert!(matches!(future.wait(), Some(Ok(7))));
    assert!(matches!(future.into_outcome(), Some(Ok(7))));
}

#[test]
fn failed_statement_carries_the_server_message() {
    let mut session = open_session(1);
    let future = run(
        &mut session,
        Statement::simple("bad".to_string()),
        Response::Failed("syntax error".to_string()),
    );
    assert!(matches!(future.wait(), Some(Err(ClientError::Protocol { message })) if message == "syntax error"));
    assert!(matches!(future.wait(), Some(Err(ClientError::Protocol { .. }))));
    let message = match future.wait() {
        Some(Err(e)) => e.server_message().cloned(),
        _ => None,
    };
    assert_eq!(message, Some("syntax error".to_string()));
    assert!(ClientError::Resource.server_message().is_none());
}

#[test]
fn default_consistency_is_one() {
    assert_eq!(Consistency::default(), Consistency::One);
    assert_eq!(Statement::simple("q".to_string()).consistency(), Consistency::One);
}

#[test]
fn close_releases_connections_and_refuses_work_after() {
    let mut session = open_session(3);
    assert_eq!(session.connection_count(), 3);
    assert_eq!(session.close().unwrap(), 3);
    assert!(!session.is_open());
    assert_eq!(session.connection_count(), 0);
    let r = session.execute(Statement::simple("SELECT".to_string()));
    assert!(matches!(r, Err(ClientError::Resource)));
    assert!(matches!(session.close(), Err(ClientError::Resource)));
}

#[test]
fn close_with_pending_statement_is_refused() {
    let mut session = open_session(1);
    let (_request, mut future) = session.execute(Statement::simple("q".to_string())).unwrap();
    assert_eq!(session.pending_count(), 1);
    assert!(matches!(session.close(), Err(ClientError::Resource)));
    assert!(session.is_open());
    session.complete(&mut future, Response::Rows(QueryResult::empty(0))).unwrap();
    assert!(matches!(session.complete(&mut future, Response::Rows(QueryResult::empty(0))), Err(ClientError::Resource)));
    assert_eq!(session.close().unwrap(), 1);
}

#[test]
fn connect_without_contact_points_fails_at_once() {
    let future = Session::connect(&ClusterConfig::new());
    assert!(matches!(future.wait(), Some(Err(ClientError::NetworkUnreachable))));
}

#[test]
fn connect_failures() {
    assert!(matches!(Session::establish(ConnectEvent::Unreachable), Err(ClientError::NetworkUnreachable)));
    assert!(matches!(
        Session::establish(ConnectEvent::AuthenticationRejected),
        Err(ClientError::Unauthorized)
    ));
    assert!(matches!(
        Session::establish(ConnectEvent::Established { connections: 0, protocol_version: MIN_PROTOCOL_VERSION }),
        Err(ClientError::NetworkUnreachable)
    ));
    assert!(matches!(
        Session::establish(ConnectEvent::Established { connections: 1, protocol_version: 2 }),
        Err(ClientError::IncompatibleProtocol { version: 2 })
    ));
    assert!(matches!(
        Session::establish(ConnectEvent::Established { connections: 1, protocol_version: 6 }),
        Err(ClientError::IncompatibleProtocol { version: 6 })
    ));
    let s = Session::establish(ConnectEvent::Established { connections: 4, protocol_version: 3 }).unwrap();
    assert!(s.is_open());
    assert_eq!(s.connection_count(), 4);
    assert_eq!(s.pending_count(), 0);
}

#[test]
fn finish_connect_twice_is_refused() {
    let mut future = Session::connect(&ClusterConfig::localhost());
    Session::finish_connect(&mut future, ConnectEvent::Unreachable).unwrap();
    let again = Session::finish_connect(
        &mut future,
        ConnectEvent::Established { connections: 1, protocol_version: 4 },
    );
    assert!(matches!(again, Err(ClientError::Resource)));
    assert!(matches!(future.wait(), Some(Err(ClientError::NetworkUnreachable))));
}

#[test]
fn configuration_holds_each_address_once() {
    let config = ClusterConfig::configure(vec![
        "10.0.0.1".to_string(),
        "10.0.0.2".to_string(),
        "10.0.0.1".to_string(),
    ]);
    assert_eq!(config.len(), 2);
    assert!(config.contains(&"10.0.0.2".to_string()));
    assert!(!config.contains(&"10.0.0.3".to_string()));
    let mut local = ClusterConfig::localhost();
    assert_eq!(local.contact_points(), &vec![DEFAULT_CONTACT_POINT.to_string()]);
    assert_eq!(DEFAULT_CONTACT_POINT, "127.0.0.1");
    assert!(!local.add_contact_point("127.0.0.1".to_string()));
    assert!(local.add_contact_point("10.0.0.9".to_string()));
    assert_eq!(local.len(), 2);
}

#[test]
fn ragged_result_is_refused() {
    let r = QueryResult::new(2, vec![vec![Value::Int32(1), Value::Int32(2)], vec![Value::Int32(3)]]);
    assert!(matches!(r, Err(DecodeError::RowWidth { row: 1, width: 2 })));
    let ok = QueryResult::new(1, vec![vec![Value::Int32(1)], vec![Value::Int32(2)]]).unwrap();
    assert_eq!(ok.row_count(), 2);
    assert_eq!(ok.width(), 1);
    assert_eq!(ok.row(1).unwrap().get_int32(0), Ok(2));
    assert!(ok.row(2).is_none());
}

#[test]
fn cursor_walks_rows_once() {
    let result = QueryResult::new(1, vec![vec![Value::Int64(10)], vec![Value::Int64(20)]]).unwrap();
    let mut cursor = result.into_rows();
    assert_eq!(cursor.next_row().unwrap().get_int64(0), Ok(10));
    assert_eq!(cursor.next_row().unwrap().get_int64(0), Ok(20));
    assert!(cursor.next_row().is_none());
    assert!(cursor.next_row().is_none());
}

#[test]
fn statement_parts_keep_query_and_consistency() {
    let mut statement = Statement::new("SELECT 1".to_string(), Consistency::Quorum, 1);
    statement.bind(0, Value::Text("k".to_string())).unwrap();
    assert_eq!(statement.query(), "SELECT 1");
    assert_eq!(statement.consistency(), Consistency::Quorum);
    assert!(matches!(statement.parameter(0), Some(Value::Text(s)) if s == "k"));
    let (query, consistency, values) = statement.into_parts().unwrap();
    assert_eq!(query, "SELECT 1");
    assert_eq!(consistency, Consistency::Quorum);
    assert_eq!(values.len(), 1);
    assert_eq!(Value::Float(3).kind(), ValueKind::Float);
    assert!(matches!(Value::Text("x".to_string()).duplicate(), Value::Text(s) if s == "x"));
}

fn stored_in_select_order(inserted: Vec<Value>) -> Vec<Value> {
    let mut it = inserted.into_iter();
    let key = it.next().unwrap();
    let bln = it.next().unwrap();
    let flt = it.next().unwrap();
    let dbl = it.next().unwrap();
    let small = it.next().unwrap();
    let big = it.next().unwrap();
    vec![key, bln, dbl, flt, small, big]
}

#[test]
fn create_insert_select_scenario() {
    let mut session = open_session(1);
    let keyspace = run(&mut session, create_keyspace_statement(), Response::Rows(QueryResult::empty(0)));
    assert!(matches!(keyspace.wait(), Some(Ok(_))));
    let table = run(&mut session, create_table_statement(), Response::Rows(QueryResult::empty(0)));
    assert!(matches!(table.wait(), Some(Ok(_))));

    let input = BasicRow {
        bln: true,
        flt: 0.0002f32.to_bits(),
        dbl: 0.001f64.to_bits(),
        i32: 1,
        i64: 2,
    };
    let (inserted, mut insert_future) =
        session.execute(insert_basic_statement("test".to_string(), &input)).unwrap();
    assert_eq!(inserted.query, INSERT_BASIC_QUERY);
    session.complete(&mut insert_future, Response::Rows(QueryResult::empty(0))).unwrap();
    assert!(matches!(insert_future.wait(), Some(Ok(_))));

    let (request, mut select_future) =
        session.execute(select_basic_statement("test".to_string())).unwrap();
    assert_eq!(request.query, SELECT_BASIC_QUERY);
    assert!(matches!(&request.values[0], Value::Text(k) if k == "test"));
    let stored = QueryResult::new(6, vec![stored_in_select_order(inserted.values)]).unwrap();
    session.complete(&mut select_future, Response::Rows(stored)).unwrap();

    let result = select_future.into_outcome().unwrap().unwrap();
    let output = decode_basic(&result).unwrap().unwrap();
    assert_eq!(output, input);
    assert_eq!(f32::from_bits(output.flt), 0.0002f32);
    assert_eq!(f64::from_bits(output.dbl), 0.001f64);
    assert_eq!(result.row(0).unwrap().get_text(0).unwrap(), "test");

    assert_eq!(session.pending_count(), 0);
    assert_eq!(session.close().unwrap(), 1);
}

#[test]
fn basic_statements_bind_in_column_order() {
    let row = BasicRow { bln: false, flt: 11, dbl: 22, i32: -3, i64: 4 };
    let insert = insert_basic_statement("k".to_string(), &row);
    assert_eq!(insert.parameter_count(), 6);
    assert_eq!(insert.consistency(), Consistency::One);
    assert!(matches!(insert.parameter(0), Some(Value::Text(s)) if s == "k"));
    assert!(matches!(insert.parameter(1), Some(Value::Boolean(false))));
    assert!(matches!(insert.parameter(2), Some(Value::Float(11))));
    assert!(matches!(insert.parameter(3), Some(Value::Double(22))));
    assert!(matches!(insert.parameter(4), Some(Value::Int32(-3))));
    assert!(matches!(insert.parameter(5), Some(Value::Int64(4))));
    let select = select_basic_statement("k".to_string());
    assert_eq!(select.query(), "SELECT * FROM examples.basic WHERE key = ?;");
    assert_eq!(select.parameter_count(), 1);
    assert!(matches!(select.parameter(0), Some(Value::Text(s)) if s == "k"));
    assert_eq!(create_keyspace_statement().query(), CREATE_KEYSPACE_QUERY);
    assert!(create_table_statement().query().starts_with("CREATE TABLE examples.basic"));
    assert_eq!(create_table_statement().parameter_count(), 0);
}

#[test]
fn decode_basic_reads_the_first_row_in_select_order() {
    let empty = QueryResult::empty(6);
    assert_eq!(decode_basic(&empty), Ok(None));
    let result = QueryResult::new(
        6,
        vec![
            vec![
                Value::Text("a".to_string()),
                Value::Boolean(true),
                Value::Double(7),
                Value::Float(3),
                Value::Int32(1),
                Value::Int64(2),
            ],
            vec![
                Value::Text("b".to_string()),
                Value::Boolean(false),
                Value::Double(0),
                Value::Float(0),
                Value::Int32(0),
                Value::Int64(0),
            ],
        ],
    )
    .unwrap();
    assert_eq!(
        decode_basic(&result),
        Ok(Some(BasicRow { bln: true, flt: 3, dbl: 7, i32: 1, i64: 2 }))
    );
}

#[test]
fn decode_basic_reports_the_first_bad_column() {
    let swapped = QueryResult::new(
        6,
        vec![vec![
            Value::Text("a".to_string()),
            Value::Boolean(true),
            Value::Float(3),
            Value::Double(7),
            Value::Int32(1),
            Value::Int64(2),
        ]],
    )
    .unwrap();
    assert_eq!(
        decode_basic(&swapped),
        Err(DecodeError::KindMismatch { expected: ValueKind::Double, found: ValueKind::Float })
    );
    let narrow = QueryResult::new(2, vec![vec![Value::Text("a".to_string()), Value::Boolean(true)]]).unwrap();
    assert_eq!(
        decode_basic(&narrow),
        Err(DecodeError::ColumnOutOfRange { index: 2, width: 2 })
    );
}

#[test]
fn configuration_keeps_first_given_order() {
    let config = ClusterConfig::configure(vec![
        "b".to_string(),
        "a".to_string(),
        "b".to_string(),
        "c".to_string(),
        "a".to_string(),
    ]);
    assert_eq!(
        config.contact_points(),
        &vec!["b".to_string(), "a".to_string(), "c".to_string()]
    );
    assert_eq!(ClusterConfig::configure(Vec::new()).len(), 0);
}
