use lightshark::state::{PacketMetadata, Protocol};
use lightshark::storage::{
    rows_to_records, Storage, WriterBuffer, DEFAULT_BATCH_THRESHOLD, HISTORY_HARD_CAP,
};

fn rec(ts: i64, len: u32) -> PacketMetadata {
    PacketMetadata {
        timestamp: ts,
        src_ip: "10.0.0.1".to_string(),
        dst_ip: "10.0.0.2".to_string(),
        src_port: 1234,
        dst_port: 80,
        protocol: Protocol::Tcp,
        length: len,
    }
}

fn fresh_db(name: &str) -> String {
    let path = format!("/tmp/lightshark_test_{}.db", name);
    // start from a clean slate even if an earlier run left the file behind
    let conn = rusqlite::Connection::open(&path).unwrap();
    let _ = conn.execute("DROP TABLE IF EXISTS packets", ());
    path
}

#[test]
fn open_on_unwritable_path_fails() {
    let r = Storage::new("/nonexistent_dir_zz/x.db");
    assert!(r.is_err());
}

#[test]
fn timer_flush_persists_every_buffered_record_exactly() {
    let path = fresh_db("timer_flush");
    let st = Storage::new(&path).unwrap();
    let mut w = WriterBuffer::new(DEFAULT_BATCH_THRESHOLD);
    let n = 3;
    for i in 0..n {
        let full = w.push(rec(100 + i as i64, 10 + i));
        assert!(!full, "below the batch threshold nothing forces a flush");
    }
    assert!(w.should_flush_on_tick());
    let flushed = w.flush(&st).unwrap();
    assert_eq!(flushed, n as usize);
    assert_eq!(w.buffer.len(), 0);
    assert!(!w.should_flush_on_tick());
    let rows = st.query_history(100).unwrap();
    assert_eq!(rows.len(), n as usize);
    // newest first, column for column
    assert_eq!(rows[0], rec(102, 12));
    assert_eq!(rows[1], rec(101, 11));
    assert_eq!(rows[2], rec(100, 10));
}

#[test]
fn reaching_batch_threshold_demands_immediate_flush() {
    let path = fresh_db("batch_flush");
    let st = Storage::new(&path).unwrap();
    let mut w = WriterBuffer::new(5);
    for i in 0..4 {
        assert!(!w.push(rec(i, 1)));
    }
    // the threshold-reaching push reports the obligation to flush now
    assert!(w.push(rec(4, 1)));
    let flushed = w.flush(&st).unwrap();
    assert_eq!(flushed, 5);
    assert_eq!(st.query_history(100).unwrap().len(), 5);
}

#[test]
fn failed_flush_keeps_buffer_and_retry_writes_records_once() {
    let path = fresh_db("retry_flush");
    let st = Storage::new(&path).unwrap();
    let mut w = WriterBuffer::new(DEFAULT_BATCH_THRESHOLD);
    w.push(rec(1, 10));
    w.push(rec(2, 20));

    // force the flush to fail: drop the table behind the storage handle
    let saboteur = rusqlite::Connection::open(&path).unwrap();
    saboteur.execute("DROP TABLE packets", ()).unwrap();

    let r = w.flush(&st);
    assert!(r.is_err());
    assert_eq!(w.buffer.len(), 2, "a failed commit must not clear the buffer");

    // restore the schema and retry: the same records appear exactly once
    let st2 = Storage::new(&path).unwrap();
    let flushed = w.flush(&st2).unwrap();
    assert_eq!(flushed, 2);
    assert_eq!(w.buffer.len(), 0);
    let rows = st2.query_history(100).unwrap();
    assert_eq!(rows.len(), 2);
    assert_eq!(rows[0], rec(2, 20));
    assert_eq!(rows[1], rec(1, 10));
}

#[test]
fn query_on_missing_table_reports_error() {
    let path = fresh_db("query_err");
    let st = Storage::new(&path).unwrap();
    let saboteur = rusqlite::Connection::open(&path).unwrap();
    saboteur.execute("DROP TABLE packets", ()).unwrap();
    let r = st.query_history(10);
    assert!(r.is_err());
    assert!(!r.unwrap_err().message.is_empty());
}

#[test]
fn query_history_respects_limit_and_orders_newest_first() {
    let path = fresh_db("limit");
    let st = Storage::new(&path).unwrap();
    let mut w = WriterBuffer::new(DEFAULT_BATCH_THRESHOLD);
    // insert out of timestamp order
    for ts in [5i64, 1, 9, 3, 7] {
        w.push(rec(ts, 1));
    }
    w.flush(&st).unwrap();
    let rows = st.query_history(3).unwrap();
    assert_eq!(rows.len(), 3);
    assert_eq!(rows[0].timestamp, 9);
    assert_eq!(rows[1].timestamp, 7);
    assert_eq!(rows[2].timestamp, 5);
    // an enormous request is capped, not honored
    let all = st.query_history(usize::MAX).unwrap();
    assert_eq!(all.len(), 5);
    assert!(all.len() <= HISTORY_HARD_CAP);
}

#[test]
fn flush_of_empty_buffer_is_a_no_op() {
    let path = fresh_db("empty_flush");
    let st = Storage::new(&path).unwrap();
    let mut w = WriterBuffer::new(DEFAULT_BATCH_THRESHOLD);
    assert_eq!(w.flush(&st).unwrap(), 0);
    assert_eq!(st.query_history(10).unwrap().len(), 0);
}

#[test]
fn rows_map_to_records_column_for_column() {
    let rows = vec![
        (42i64, "1.2.3.4".to_string(), "5.6.7.8".to_string(), 10u16, 20u16, "TCP".to_string(), 99u32),
        (41, "a".to_string(), "b".to_string(), 0, 0, "IPv6".to_string(), 1),
        (40, "c".to_string(), "d".to_string(), 7, 8, "bogus".to_string(), 2),
    ];
    let recs = rows_to_records(&rows);
    assert_eq!(recs.len(), 3);
    assert_eq!(recs[0].timestamp, 42);
    assert_eq!(recs[0].src_ip, "1.2.3.4");
    assert_eq!(recs[0].dst_ip, "5.6.7.8");
    assert_eq!(recs[0].src_port, 10);
    assert_eq!(recs[0].dst_port, 20);
    assert_eq!(recs[0].protocol, Protocol::Tcp);
    assert_eq!(recs[0].length, 99);
    assert_eq!(recs[1].protocol, Protocol::Ipv6);
    // an unrecognized persisted label degrades to Unknown
    assert_eq!(recs[2].protocol, Protocol::Unknown);
    assert_eq!(recs[2].src_port, 7);
}

#[test]
fn persisted_labels_round_trip_through_the_schema() {
    let path = fresh_db("labels");
    let st = Storage::new(&path).unwrap();
    let mut w = WriterBuffer::new(DEFAULT_BATCH_THRESHOLD);
    let mut u = rec(1, 1);
    u.protocol = Protocol::Udp;
    let mut v4 = rec(2, 1);
    v4.protocol = Protocol::Ipv4;
    let mut v6 = rec(3, 1);
    v6.protocol = Protocol::Ipv6;
    w.push(u);
    w.push(v4);
    w.push(v6);
    w.flush(&st).unwrap();
    let rows = st.query_history(10).unwrap();
    assert_eq!(rows[0].protocol, Protocol::Ipv6);
    assert_eq!(rows[1].protocol, Protocol::Ipv4);
    assert_eq!(rows[2].protocol, Protocol::Udp);
}
