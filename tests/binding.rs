use crossdb::cell::cell_text;
use crossdb::conn::{Conn, ExecStep, ResultHeader};
use crossdb::result::XdbResult;
use crossdb::{decimal, native_text, text_of_native, version, NativeCell, XdbError};

fn text_cell(s: &str) -> NativeCell {
    NativeCell { text: Some(s.as_bytes().to_vec()), integer: 0 }
}

fn int_cell(v: i64) -> NativeCell {
    NativeCell { text: None, integer: v }
}

fn ready(conn: &Conn, handle: usize, col_count: u16) -> XdbResult {
    match conn.exec(Some(ResultHeader { handle, errcode: 0, col_count })) {
        ExecStep::Ready(r) => r,
        _ => panic!("expected a ready result"),
    }
}

fn strings(row: Vec<Option<String>>) -> Vec<String> {
    row.into_iter().map(|c| c.expect("every column yields a value")).collect()
}

#[test]
fn open_null_handle_is_open_error() {
    assert!(matches!(Conn::open(0), Err(XdbError::Open)));
}

#[test]
fn open_non_null_handle_owns_it() {
    let conn = Conn::open(0x1000).expect("open");
    assert_eq!(conn.handle(), 0x1000);
    assert_eq!(conn.close(), 0x1000);
}

#[test]
fn exec_null_result_is_call_failed() {
    let conn = Conn::open(1).expect("open");
    assert!(matches!(conn.exec(None), ExecStep::Failed(XdbError::CallFailed)));
    let zero = ResultHeader { handle: 0, errcode: 0, col_count: 3 };
    assert!(matches!(conn.exec(Some(zero)), ExecStep::Failed(XdbError::CallFailed)));
}

#[test]
fn exec_error_code_releases_result_once() {
    let conn = Conn::open(1).expect("open");
    for round in 0..10_000usize {
        let handle = 0x2000 + round;
        let header = ResultHeader { handle, errcode: 7, col_count: 0 };
        let failed = match conn.exec(Some(header)) {
            ExecStep::ReadMessage(f) => f,
            _ => panic!("expected a failed statement"),
        };
        assert_eq!(failed.handle(), handle);
        assert_eq!(failed.code(), 7);
        let (err, released) = failed.release(b"no such table: t");
        assert_eq!(released, handle);
        assert_eq!(err, XdbError::Sql { code: 7, message: "no such table: t".to_string() });
    }
}

#[test]
fn exec_success_gives_result() {
    let conn = Conn::open(1).expect("open");
    let res = ready(&conn, 0x3000, 4);
    assert_eq!(res.handle(), 0x3000);
    assert_eq!(res.column_count(), 4);
    assert!(res.wants_row());
    assert_eq!(res.close(), 0x3000);
}

#[test]
fn fetch_rows_in_cursor_order_then_end_once() {
    let conn = Conn::open(1).expect("open");
    let mut res = ready(&conn, 2, 2);
    let first = res.fetch_row(Some(vec![int_cell(1), text_cell("a")])).expect("row");
    assert_eq!(strings(first), vec!["1", "a"]);
    let second = res.fetch_row(Some(vec![int_cell(2), text_cell("b")])).expect("row");
    assert_eq!(strings(second), vec!["2", "b"]);
    assert!(res.wants_row());
    assert!(res.fetch_row(None).is_none());
    assert!(!res.wants_row());
    // Once exhausted, nothing more comes out, whatever is passed.
    assert!(res.fetch_row(Some(vec![int_cell(3), text_cell("c")])).is_none());
    assert!(res.fetch_row(None).is_none());
    assert!(!res.wants_row());
}

#[test]
fn text_round_trips_byte_for_byte() {
    for s in ["", "a", "héllo wörld", "日本語", "emoji 🎉", "tab\tand\nnewline"] {
        assert_eq!(text_of_native(s.as_bytes()), s);
        assert_eq!(cell_text(&text_cell(s)), s);
    }
}

#[test]
fn invalid_bytes_decode_with_replacement() {
    assert_eq!(text_of_native(&[b'a', 0xff, b'b']), "a\u{FFFD}b");
    let cell = NativeCell { text: Some(vec![0xc3]), integer: 5 };
    assert_eq!(cell_text(&cell), "\u{FFFD}");
}

#[test]
fn integer_fallback_matches_host_formatting() {
    for v in [0i64, 1, 9, 10, 42, -1, -10, 1234567890, i64::MAX, i64::MIN] {
        assert_eq!(decimal(v), v.to_string());
        assert_eq!(cell_text(&int_cell(v)), v.to_string());
    }
}

#[test]
fn text_wins_over_integer_reading() {
    let cell = NativeCell { text: Some(b"12x".to_vec()), integer: 12 };
    assert_eq!(cell_text(&cell), "12x");
}

#[test]
fn embedded_nul_is_encoding_error() {
    assert_eq!(native_text("SELECT 1\0 FROM t"), Err(XdbError::Encoding));
    assert_eq!(native_text("\0"), Err(XdbError::Encoding));
}

#[test]
fn native_text_is_nul_terminated() {
    assert_eq!(native_text("SELECT 1"), Ok(b"SELECT 1\0".to_vec()));
    assert_eq!(native_text(""), Ok(vec![0u8]));
    assert_eq!(native_text("é"), Ok(vec![0xc3, 0xa9, 0]));
}

#[test]
fn transactions_follow_native_status() {
    let conn = Conn::open(1).expect("open");
    assert_eq!(conn.begin(0), Ok(()));
    assert_eq!(conn.begin(-1), Err(XdbError::BeginFailed));
    assert_eq!(conn.commit(0), Ok(()));
    assert_eq!(conn.commit(3), Err(XdbError::CommitFailed));
    assert_eq!(conn.rollback(0), Ok(()));
    assert_eq!(conn.rollback(1), Err(XdbError::RollbackFailed));
}

#[test]
fn error_messages() {
    assert_eq!(XdbError::Open.message(), "Failed to open database");
    assert_eq!(XdbError::CallFailed.message(), "Failed to execute SQL");
    assert_eq!(XdbError::BeginFailed.message(), "Failed to begin transaction");
    assert_eq!(XdbError::CommitFailed.message(), "Failed to commit transaction");
    assert_eq!(XdbError::RollbackFailed.message(), "Failed to rollback transaction");
    assert_eq!(XdbError::Encoding.message(), "text holds an embedded NUL byte");
    let sql = XdbError::Sql { code: 1062, message: "duplicate key".to_string() };
    assert_eq!(sql.message(), "SQL error 1062: duplicate key");
}

#[test]
fn version_reads_native_text() {
    assert_eq!(version(b"0.12.0"), "0.12.0");
}

#[test]
fn create_insert_select_scenario() {
    let conn = Conn::open(0x10).expect("open");
    assert!(native_text("CREATE TABLE t(id INT, name TEXT)").is_ok());
    let created = ready(&conn, 0x20, 0);
    assert_eq!(created.close(), 0x20);
    assert!(native_text("INSERT INTO t VALUES (1, 'a')").is_ok());
    let inserted = ready(&conn, 0x30, 0);
    assert_eq!(inserted.close(), 0x30);
    assert!(native_text("SELECT * FROM t").is_ok());
    let mut rows = ready(&conn, 0x40, 2);
    assert_eq!(rows.column_count(), 2);
    let row = rows.fetch_row(Some(vec![int_cell(1), text_cell("a")])).expect("one row");
    assert_eq!(strings(row), vec!["1", "a"]);
    assert!(rows.fetch_row(None).is_none());
    assert_eq!(rows.close(), 0x40);
    assert_eq!(conn.close(), 0x10);
}
