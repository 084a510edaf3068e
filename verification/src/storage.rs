use vstd::prelude::*;
use vstd::string::*;

use crate::state::{
    protocol_from_label, protocol_label, spec_protocol_from_label, PacketMetadata,
};

verus! {

#[verifier::external_type_specification]
#[verifier::external_body]
pub struct ExConnection(rusqlite::Connection);

#[verifier::external_type_specification]
#[verifier::external_body]
pub struct ExSqlError(rusqlite::Error);

/// An error from the durable store, reduced to its message.
#[derive(Clone, Debug, PartialEq)]
pub struct StorageError {
    pub message: String,
}

/// Relies on rusqlite::Connection::open: opens (creating if missing) the
/// database file at the given path.
#[verifier::external_body]
fn open_connection(path: &str) -> (r: Result<rusqlite::Connection, rusqlite::Error>) {
    rusqlite::Connection::open(path)
}

/// Relies on rusqlite::Connection::execute: runs one parameterless SQL
/// statement and reports how many rows it changed.
#[verifier::external_body]
fn exec_sql(conn: &rusqlite::Connection, sql: &str) -> (r: Result<usize, rusqlite::Error>) {
    conn.execute(sql, ())
}

/// Relies on rusqlite::Connection::query_row: runs a statement that yields
/// one row holding one text value, here used for PRAGMA statements.
#[verifier::external_body]
fn query_text_row(conn: &rusqlite::Connection, sql: &str) -> (r: Result<String, rusqlite::Error>) {
    conn.query_row(sql, (), |row| row.get(0))
}

/// Relies on rusqlite::Connection::execute: binds the record's fields to
/// the given INSERT statement and runs it.
#[verifier::external_body]
fn exec_insert(
    conn: &rusqlite::Connection,
    sql: &str,
    rec: &PacketMetadata,
    label: &String,
) -> (r: Result<usize, rusqlite::Error>) {
    conn.execute(
        sql,
        (
            rec.timestamp,
            &rec.src_ip,
            &rec.dst_ip,
            rec.src_port,
            rec.dst_port,
            label,
            rec.length,
        ),
    )
}

/// Rows come back timestamp-descending.
pub open spec fn rows_sorted_desc(v: Seq<(i64, String, String, u16, u16, String, u32)>) -> bool {
    forall|i: int, j: int| 0 <= i < j < v.len() ==> v[i].0 >= v[j].0
}

/// Relies on rusqlite prepare/query_map and on sqlite's documented ORDER BY
/// and LIMIT semantics for this statement: at most `limit` rows come back,
/// ordered by the timestamp column descending.
#[verifier::external_body]
fn query_recent_rows(conn: &rusqlite::Connection, limit: usize) -> (r: Result<
    Vec<(i64, String, String, u16, u16, String, u32)>,
    rusqlite::Error,
>)
    ensures
        r matches Ok(v) ==> v@.len() <= limit && rows_sorted_desc(v@),
{
    let mut stmt = conn.prepare(
        "SELECT timestamp, src_ip, dst_ip, src_port, dst_port, protocol, length \
         FROM packets ORDER BY timestamp DESC LIMIT ?1",
    )?;
    let rows = stmt.query_map([limit as i64], |row| {
        Ok((row.get(0)?, row.get(1)?, row.get(2)?, row.get(3)?, row.get(4)?, row.get(5)?,
            row.get(6)?))
    })?;
    rows.collect()
}

/// Relies on std's ToString through rusqlite::Error's Display impl.
#[verifier::external_body]
fn sql_error_message(e: &rusqlite::Error) -> (r: String) {
    e.to_string()
}

fn storage_err(e: rusqlite::Error) -> (r: StorageError) {
    StorageError { message: sql_error_message(&e) }
}

/// Query results are timestamp-descending.
pub open spec fn recs_sorted_desc(v: Seq<PacketMetadata>) -> bool {
    forall|i: int, j: int| 0 <= i < j < v.len() ==> v[i].timestamp >= v[j].timestamp
}

/// Turn queried rows into packet records, column for column and in order;
/// the protocol column is mapped back through its label.
pub fn rows_to_records(rows: &Vec<(i64, String, String, u16, u16, String, u32)>) -> (r: Vec<
    PacketMetadata,
>)
    ensures
        r@.len() == rows@.len(),
        forall|j: int|
            0 <= j < rows@.len() ==> r@[j].timestamp == rows@[j].0 && r@[j].src_ip == rows@[j].1
                && r@[j].dst_ip == rows@[j].2 && r@[j].src_port == rows@[j].3 && r@[j].dst_port
                == rows@[j].4 && r@[j].protocol == spec_protocol_from_label(
                vstd::utf8::encode_utf8(rows@[j].5@),
            ) && r@[j].length == rows@[j].6,
{
    let mut out: Vec<PacketMetadata> = Vec::new();
    let n = rows.len();
    let mut i: usize = 0;
    while i < n
        invariant
            n == rows@.len(),
            0 <= i <= n,
            out@.len() == i,
            forall|j: int|
                0 <= j < i ==> out@[j].timestamp == rows@[j].0 && out@[j].src_ip == rows@[j].1
                    && out@[j].dst_ip == rows@[j].2 && out@[j].src_port == rows@[j].3
                    && out@[j].dst_port == rows@[j].4 && out@[j].protocol
                    == spec_protocol_from_label(vstd::utf8::encode_utf8(rows@[j].5@))
                    && out@[j].length == rows@[j].6,
        decreases n - i,
    {
        let row = &rows[i];
        let rec = PacketMetadata {
            timestamp: row.0,
            src_ip: row.1.clone(),
            dst_ip: row.2.clone(),
            src_port: row.3,
            dst_port: row.4,
            protocol: protocol_from_label(row.5.as_str()),
            length: row.6,
        };
        out.push(rec);
        i = i + 1;
    }
    out
}

/// Hard cap on how many history rows one query may return.
pub const HISTORY_HARD_CAP: usize = 1000;

/// Buffered records that force an immediate flush.
pub const DEFAULT_BATCH_THRESHOLD: usize = 1000;

/// Seconds between timer-driven flushes.
pub const DEFAULT_FLUSH_INTERVAL_SECS: u64 = 2;

/// Owner of the durable packet table. The persistence writer is its only
/// writing user; the query path reads through `query_history`.
pub struct Storage {
    pub(crate) conn: rusqlite::Connection,
}

impl Storage {
    /// Open or create the database, switch it to write-ahead logging so
    /// readers do not block on writer commits, and ensure the packet table
    /// and its timestamp index exist. Any failure here is fatal at startup.
    pub fn new(db_path: &str) -> (r: Result<Storage, StorageError>) {
        let conn = match open_connection(db_path) {
            Ok(c) => c,
            Err(e) => {
                return Err(storage_err(e));
            },
        };
        match query_text_row(&conn, "PRAGMA journal_mode=WAL;") {
            Ok(_) => {},
            Err(e) => {
                return Err(storage_err(e));
            },
        }
        match exec_sql(&conn, "PRAGMA synchronous=NORMAL;") {
            Ok(_) => {},
            Err(e) => {
                return Err(storage_err(e));
            },
        }
        match exec_sql(
            &conn,
            "CREATE TABLE IF NOT EXISTS packets (\
             id INTEGER PRIMARY KEY, \
             timestamp INTEGER NOT NULL, \
             src_ip TEXT NOT NULL, \
             dst_ip TEXT NOT NULL, \
             src_port INTEGER, \
             dst_port INTEGER, \
             protocol TEXT, \
             length INTEGER)",
        ) {
            Ok(_) => {},
            Err(e) => {
                return Err(storage_err(e));
            },
        }
        match exec_sql(&conn, "CREATE INDEX IF NOT EXISTS idx_timestamp ON packets(timestamp)") {
            Ok(_) => {},
            Err(e) => {
                return Err(storage_err(e));
            },
        }
        Ok(Storage { conn })
    }

    /// Return up to `limit` most recent records, newest first: the queried
    /// rows, each mapped by `rows_to_records`. Whatever the caller asks
    /// for, no more than the hard cap is ever returned.
    pub fn query_history(&self, limit: usize) -> (r: Result<Vec<PacketMetadata>, StorageError>)
        ensures
            r matches Ok(v) ==> v@.len() <= limit && v@.len() <= HISTORY_HARD_CAP
                && recs_sorted_desc(v@),
    {
        let cap = if limit < HISTORY_HARD_CAP {
            limit
        } else {
            HISTORY_HARD_CAP
        };
        let rows = match query_recent_rows(&self.conn, cap) {
            Ok(rows) => rows,
            Err(e) => {
                return Err(storage_err(e));
            },
        };
        Ok(rows_to_records(&rows))
    }
}

/// Buffered records awaiting their next flush, with the batch threshold
/// that triggers an immediate one.
pub struct WriterBuffer {
    pub buffer: Vec<PacketMetadata>,
    pub batch_threshold: usize,
}

impl WriterBuffer {
    pub fn new(batch_threshold: usize) -> (r: WriterBuffer)
        ensures
            r.buffer@.len() == 0,
            r.batch_threshold == batch_threshold,
    {
        WriterBuffer { buffer: Vec::new(), batch_threshold }
    }

    /// Take one record off the queue into the buffer. The result says
    /// whether the batch threshold was reached, which obliges the caller to
    /// flush immediately.
    pub fn push(&mut self, rec: PacketMetadata) -> (flush_now: bool)
        ensures
            final(self).buffer@ == old(self).buffer@.push(rec),
            final(self).batch_threshold == old(self).batch_threshold,
            flush_now == (final(self).buffer@.len() >= final(self).batch_threshold),
    {
        self.buffer.push(rec);
        self.buffer.len() >= self.batch_threshold
    }

    /// On a timer tick the buffer is flushed exactly when it is non-empty.
    pub fn should_flush_on_tick(&self) -> (r: bool)
        ensures
            r == (self.buffer@.len() > 0),
    {
        self.buffer.len() > 0
    }

    /// Write every buffered record to storage in one transaction. On
    /// success the buffer is cleared; on any failure (begin, insert or
    /// commit) it is left intact, so the same records are retried on the
    /// next trigger.
    pub fn flush(&mut self, st: &Storage) -> (r: Result<usize, StorageError>)
        ensures
            final(self).batch_threshold == old(self).batch_threshold,
            r matches Ok(n) ==> final(self).buffer@.len() == 0 && n == old(self).buffer@.len(),
            r is Err ==> final(self).buffer@ == old(self).buffer@,
            old(self).buffer@.len() == 0 ==> (r matches Ok(n) && n == 0),
    {
        if self.buffer.len() == 0 {
            return Ok(0);
        }
        match exec_sql(&st.conn, "BEGIN") {
            Ok(_) => {},
            Err(e) => {
                return Err(storage_err(e));
            },
        }
        let n = self.buffer.len();
        let mut i: usize = 0;
        while i < n
            invariant
                *self == *old(self),
                n == self.buffer@.len(),
                0 <= i <= n,
            decreases n - i,
        {
            let label = protocol_label(self.buffer[i].protocol);
            match exec_insert(
                &st.conn,
                "INSERT INTO packets (timestamp, src_ip, dst_ip, src_port, dst_port, protocol, length) \
                 VALUES (?1, ?2, ?3, ?4, ?5, ?6, ?7)",
                &self.buffer[i],
                &label,
            ) {
                Ok(_) => {},
                Err(e) => {
                    let _ = exec_sql(&st.conn, "ROLLBACK");
                    return Err(storage_err(e));
                },
            }
            i = i + 1;
        }
        match exec_sql(&st.conn, "COMMIT") {
            Ok(_) => {},
            Err(e) => {
                let _ = exec_sql(&st.conn, "ROLLBACK");
                return Err(storage_err(e));
            },
        }
        self.buffer.clear();
        Ok(n)
    }
}

} // verus!
