use rusqlite::Connection;
use scribe::clock::Timestamp;
use scribe::commands::{
    delete_recording_inner, get_recording_inner, list_recordings_inner, retry_summary_store,
    retry_summary_transcript, transcript_for_summary, update_recording_inner,
};
use scribe::db::{finalize_recording, insert_recording, DbError, Recording};
use scribe::summarization::{ollama_summary, summary_request, SummarizationBackend, SummaryRequest};

fn in_memory_db() -> Connection {
    let conn = Connection::open_in_memory().expect("in-memory DB");
    conn.execute_batch(
        "CREATE TABLE IF NOT EXISTS recordings (
            id TEXT PRIMARY KEY NOT NULL,
            title TEXT NOT NULL,
            started_at TEXT NOT NULL,
            ended_at TEXT,
            transcript TEXT,
            summary TEXT,
            created_at TEXT NOT NULL,
            updated_at TEXT NOT NULL
        );",
    )
    .expect("create table");
    conn
}

/// Regenerating a summary when the summarization service gives nothing back
/// (the exchange with the service itself is made by the application).
fn retry_summary_without_reply(
    conn: &mut Connection,
    backend: &SummarizationBackend,
    id: &str,
) -> Result<(), String> {
    let transcript = retry_summary_transcript(conn, id)?;
    let summary = match summary_request(&transcript, backend) {
        SummaryRequest::Skip => None,
        _ => ollama_summary(200, None),
    };
    retry_summary_store(conn, id, summary)
}

#[test]
fn list_recordings_returns_empty_on_fresh_db() {
    let conn = in_memory_db();
    let result = list_recordings_inner(&conn).expect("ok");
    assert!(result.is_empty());
}

#[test]
fn list_recordings_returns_inserted_rows() {
    let mut conn = in_memory_db();
    insert_recording(&mut conn, &Timestamp::now()).expect("insert");
    insert_recording(&mut conn, &Timestamp::now()).expect("insert");
    let result = list_recordings_inner(&conn).expect("ok");
    assert_eq!(result.len(), 2);
}

#[test]
fn get_recording_returns_none_for_missing_id() {
    let conn = in_memory_db();
    let result = get_recording_inner(&conn, "no-such-id").expect("ok");
    assert!(result.is_none());
}

#[test]
fn get_recording_returns_some_for_existing_id() {
    let mut conn = in_memory_db();
    let id = insert_recording(&mut conn, &Timestamp::now()).expect("insert");
    let result = get_recording_inner(&conn, &id).expect("ok");
    assert!(result.is_some());
    assert_eq!(result.unwrap().id, id);
}

#[test]
fn update_recording_changes_title() {
    let mut conn = in_memory_db();
    let id = insert_recording(&mut conn, &Timestamp::now()).expect("insert");
    update_recording_inner(&mut conn, &id, Some("New Title"), None, None).expect("ok");
    let rec = get_recording_inner(&conn, &id).expect("ok").expect("exists");
    assert_eq!(rec.title, "New Title");
}

#[test]
fn update_recording_returns_err_for_missing_id_gracefully() {
    let mut conn = in_memory_db();
    let result = update_recording_inner(&mut conn, "ghost", Some("X"), None, None);
    assert!(result.is_ok());
}

#[test]
fn delete_recording_removes_the_row() {
    let mut conn = in_memory_db();
    let id = insert_recording(&mut conn, &Timestamp::now()).expect("insert");
    delete_recording_inner(&mut conn, &id).expect("ok");
    let result = get_recording_inner(&conn, &id).expect("ok");
    assert!(result.is_none());
}

#[test]
fn delete_recording_nonexistent_id_is_ok() {
    let mut conn = in_memory_db();
    let result = delete_recording_inner(&mut conn, "no-such-id");
    assert!(result.is_ok());
}

#[test]
fn retry_summary_returns_err_when_recording_missing() {
    let mut conn = in_memory_db();
    let backend = SummarizationBackend::Disabled;
    let result = retry_summary_without_reply(&mut conn, &backend, "missing");
    assert!(result.is_err());
    assert!(result.unwrap_err().contains("not found"));
}

#[test]
fn retry_summary_returns_err_when_transcript_is_null() {
    let mut conn = in_memory_db();
    let id = insert_recording(&mut conn, &Timestamp::now()).expect("insert");
    let backend = SummarizationBackend::Disabled;
    let result = retry_summary_without_reply(&mut conn, &backend, &id);
    assert!(result.is_err());
    assert!(result.unwrap_err().contains("no transcript"));
}

#[test]
fn retry_summary_returns_err_when_backend_is_none() {
    let mut conn = in_memory_db();
    let id = insert_recording(&mut conn, &Timestamp::now()).expect("insert");
    finalize_recording(&mut conn, &id, &Timestamp::now(), "Hello world", None).expect("finalize");
    let backend = SummarizationBackend::Disabled;
    let result = retry_summary_without_reply(&mut conn, &backend, &id);
    assert!(result.is_err());
    assert!(result.unwrap_err().contains("Summarization failed"));
}

// ── Further cases ─────────────────────────────────────────────────────────────

#[test]
fn retry_summary_stores_a_new_summary() {
    let mut conn = in_memory_db();
    let id = insert_recording(&mut conn, &Timestamp::now()).expect("insert");
    finalize_recording(&mut conn, &id, &Timestamp::now(), "Hello world", None).expect("finalize");
    let transcript = retry_summary_transcript(&conn, &id).expect("transcript");
    assert_eq!(transcript, "Hello world");
    retry_summary_store(&mut conn, &id, Some("• a point".to_string())).expect("store");
    let rec = get_recording_inner(&conn, &id).expect("ok").expect("exists");
    assert_eq!(rec.summary.as_deref(), Some("• a point"));
    assert_eq!(rec.transcript.as_deref(), Some("Hello world"));
}

#[test]
fn transcript_for_summary_passes_database_errors_on() {
    let e = DbError { message: "disk I/O error".to_string() };
    assert_eq!(transcript_for_summary(Err(e)), Err("disk I/O error".to_string()));
    assert_eq!(
        transcript_for_summary(Ok(None)),
        Err("Recording not found or has no transcript".to_string())
    );
    let rec = Recording {
        id: "a".to_string(),
        title: "t".to_string(),
        started_at: "s".to_string(),
        ended_at: None,
        transcript: Some("words".to_string()),
        summary: None,
        created_at: "c".to_string(),
        updated_at: "u".to_string(),
    };
    assert_eq!(transcript_for_summary(Ok(Some(rec))), Ok("words".to_string()));
}

#[test]
fn failed_list_reports_driver_message() {
    let conn = Connection::open_in_memory().expect("in-memory DB");
    let err = list_recordings_inner(&conn).unwrap_err();
    assert!(err.contains("no such table"));
}
