//! A typed client layer for a distributed tabular database: cluster
//! configuration, parameterised statements, futures for asynchronous
//! operations, sessions and the decoding of returned rows.
//!
//! The network and its wire protocol stand outside the library. The library
//! decides; the caller's transport sends each request and reports what came
//! back as an event, which the library turns into the next state.

pub mod basic;
pub mod config;
pub mod error;
pub mod future;
pub mod result;
pub mod session;
pub mod statement;
pub mod value;

pub use basic::{
    create_keyspace_statement, create_table_statement, decode_basic, insert_basic_statement,
    select_basic_statement, BasicRow, CREATE_KEYSPACE_QUERY, CREATE_TABLE_QUERY, INSERT_BASIC_QUERY,
    SELECT_BASIC_QUERY,
};
pub use config::{ClusterConfig, DEFAULT_CONTACT_POINT};
pub use error::{ClientError, DecodeError};
pub use future::Future;
pub use result::{QueryResult, Row, RowCursor};
pub use session::{
    ConnectEvent, Request, Response, Session, MAX_PROTOCOL_VERSION, MIN_PROTOCOL_VERSION,
};
pub use statement::{Consistency, Statement};
pub use value::{Value, ValueKind};
