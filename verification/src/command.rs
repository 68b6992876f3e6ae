//! The typed connect command.
//!
//! A `ConnectOpts` is built once per user invocation from an
//! already-classified source, is immutable from then on, and is owned by
//! exactly one dispatch envelope until the executor consumes it.

use vstd::prelude::*;
use crate::classify::DatasetConn;

verus! {

/// One validated request to connect a dataset.
///
/// `table` is meaningful only when `conn` is a database source; supplying
/// it alongside a file source is not an error: the field is simply
/// ignored.
#[derive(Debug)]
pub struct ConnectOpts {
    /// The classified source to connect to.
    pub conn: DatasetConn,
    /// For a database source, the table to read.
    pub table: Option<String>,
    /// The identifier the dataset is registered under afterwards.
    pub name: String,
}

impl ConnectOpts {
    /// Build a command from already-classified parts. Pure and total: the
    /// fields hold exactly the given values, and no method of the type
    /// mutates them afterwards.
    pub fn new(conn: DatasetConn, table: Option<String>, name: String) -> (r: Self)
        ensures
            r.conn == conn,
            r.table == table,
            r.name == name,
    {
        Self { conn, table, name }
    }
}

} // verus!
