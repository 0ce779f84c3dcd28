//! The recordings table.
//!
//! Recordings live in the SQLite table `recordings` (see `init_schema`).  The
//! contracts here speak of the table's contents as a map from id to row,
//! `recordings_table(conn)`; every statement runs through one of the
//! `sql_*` functions below, each of which states what its statement does to
//! that map.
//!
//! These statements assume that the recordings table has the schema that
//! `init_schema` creates and that no other connection writes to it between
//! two calls made through the same `Connection`.
use vstd::prelude::*;
use rusqlite::Connection;
use crate::clock::{Timestamp, is_time_text, is_uuid_v4_text, new_uuid_v4};
use crate::text::{concat_str, opt_view};

verus! {

#[verifier::external_type_specification]
#[verifier::external_body]
pub struct ExConnection(rusqlite::Connection);

#[verifier::external_type_specification]
#[verifier::external_body]
pub struct ExSqliteError(rusqlite::Error);

/// A stored recording.
#[derive(Debug, Clone)]
pub struct Recording {
    pub id: String,
    pub title: String,
    pub started_at: String,
    pub ended_at: Option<String>,
    pub transcript: Option<String>,
    pub summary: Option<String>,
    pub created_at: String,
    pub updated_at: String,
}

/// One row of the recordings table, apart from its id.
pub ghost struct RowView {
    pub title: Seq<char>,
    pub started_at: Seq<char>,
    pub ended_at: Option<Seq<char>>,
    pub transcript: Option<Seq<char>>,
    pub summary: Option<Seq<char>>,
    pub created_at: Seq<char>,
    pub updated_at: Seq<char>,
}

/// The rows of the recordings table that `conn` is connected to, by id.
pub uninterp spec fn recordings_table(conn: Connection) -> Map<Seq<char>, RowView>;

/// Whether the database that `conn` is connected to holds a table named
/// `recordings`.
pub uninterp spec fn has_recordings_table(conn: Connection) -> bool;

/// The row that a `Recording` value carries.
pub open spec fn row_of(r: Recording) -> RowView {
    RowView {
        title: r.title@,
        started_at: r.started_at@,
        ended_at: opt_view(r.ended_at),
        transcript: opt_view(r.transcript),
        summary: opt_view(r.summary),
        created_at: r.created_at@,
        updated_at: r.updated_at@,
    }
}

/// The columns of a row as the queries read them, in table order.
pub type RowColumns = (
    String,
    String,
    String,
    Option<String>,
    Option<String>,
    Option<String>,
    String,
    String,
);

/// The id of a row read by a query.
pub open spec fn columns_id(c: RowColumns) -> Seq<char> {
    c.0@
}

/// The row read by a query.
pub open spec fn columns_row(c: RowColumns) -> RowView {
    RowView {
        title: c.1@,
        started_at: c.2@,
        ended_at: opt_view(c.3),
        transcript: opt_view(c.4),
        summary: opt_view(c.5),
        created_at: c.6@,
        updated_at: c.7@,
    }
}

/// The view of an optional string argument.
pub open spec fn opt_str_view(o: Option<&str>) -> Option<Seq<char>> {
    match o {
        Some(s) => Some(s@),
        None => None,
    }
}

/// A row just inserted: no end, transcript or summary yet, and the same
/// creation and update time.
pub open spec fn fresh_row(title: Seq<char>, started_at: Seq<char>, now: Seq<char>) -> RowView {
    RowView {
        title,
        started_at,
        ended_at: None,
        transcript: None,
        summary: None,
        created_at: now,
        updated_at: now,
    }
}

/// The table after finalizing recording `id`: its end time, transcript and
/// summary set and its update time moved to `now`; unchanged when there is no
/// such recording.
pub open spec fn finalized(
    t: Map<Seq<char>, RowView>,
    id: Seq<char>,
    ended_at: Seq<char>,
    transcript: Seq<char>,
    summary: Option<Seq<char>>,
    now: Seq<char>,
) -> Map<Seq<char>, RowView> {
    if t.dom().contains(id) {
        t.insert(
            id,
            RowView {
                ended_at: Some(ended_at),
                transcript: Some(transcript),
                summary,
                updated_at: now,
                ..t[id]
            },
        )
    } else {
        t
    }
}

/// A row after an edit: each given field replaced, and the update time moved
/// to `now` when any field was given.
pub open spec fn edited_row(
    row: RowView,
    title: Option<Seq<char>>,
    transcript: Option<Seq<char>>,
    summary: Option<Seq<char>>,
    now: Seq<char>,
) -> RowView {
    RowView {
        title: match title {
            Some(t) => t,
            None => row.title,
        },
        transcript: match transcript {
            Some(t) => Some(t),
            None => row.transcript,
        },
        summary: match summary {
            Some(s) => Some(s),
            None => row.summary,
        },
        updated_at: if title is Some || transcript is Some || summary is Some {
            now
        } else {
            row.updated_at
        },
        ..row
    }
}

/// The table after editing recording `id`; unchanged when there is no such
/// recording.
pub open spec fn edited(
    t: Map<Seq<char>, RowView>,
    id: Seq<char>,
    title: Option<Seq<char>>,
    transcript: Option<Seq<char>>,
    summary: Option<Seq<char>>,
    now: Seq<char>,
) -> Map<Seq<char>, RowView> {
    if t.dom().contains(id) {
        t.insert(id, edited_row(t[id], title, transcript, summary, now))
    } else {
        t
    }
}

/// The update time stored for `id` in `t`.
pub open spec fn stamp_of(t: Map<Seq<char>, RowView>, id: Seq<char>) -> Seq<char> {
    t[id].updated_at
}

/// Whether `a` sorts strictly before `b`, comparing characters by code point
/// (SQLite's binary collation of UTF-8 text).
pub open spec fn text_lt(a: Seq<char>, b: Seq<char>) -> bool
    decreases a.len(),
{
    if a.len() == 0 {
        b.len() > 0
    } else if b.len() == 0 {
        false
    } else if a[0] != b[0] {
        (a[0] as u32) < (b[0] as u32)
    } else {
        text_lt(a.drop_first(), b.drop_first())
    }
}

/// Whether `rows` lists the table `t` newest first: every row of the table
/// exactly once, and no row started after the row before it.
pub open spec fn lists_newest_first(rows: Seq<RowColumns>, t: Map<Seq<char>, RowView>) -> bool {
    &&& forall|i: int|
        0 <= i < rows.len() ==> t.dom().contains(columns_id(#[trigger] rows[i])) && t[columns_id(
            rows[i],
        )] == columns_row(rows[i])
    &&& forall|i: int, j: int|
        0 <= i < j < rows.len() ==> columns_id(#[trigger] rows[i]) != columns_id(
            #[trigger] rows[j],
        )
    &&& forall|id: Seq<char>|
        t.dom().contains(id) ==> exists|i: int|
            0 <= i < rows.len() && columns_id(#[trigger] rows[i]) == id
    &&& forall|i: int, j: int|
        0 <= i < j < rows.len() ==> !text_lt(
            (#[trigger] rows[i]).2@,
            (#[trigger] rows[j]).2@,
        )
}

const CREATE_TABLE_SQL: &'static str = "CREATE TABLE IF NOT EXISTS recordings (
            id          TEXT PRIMARY KEY NOT NULL,
            title       TEXT NOT NULL,
            started_at  TEXT NOT NULL,
            ended_at    TEXT,
            transcript  TEXT,
            summary     TEXT,
            created_at  TEXT NOT NULL,
            updated_at  TEXT NOT NULL
        );";

const SELECT_ALL_SQL: &'static str =
    "SELECT id, title, started_at, ended_at, transcript, summary, created_at, updated_at
         FROM recordings ORDER BY started_at DESC";

const SELECT_ONE_SQL: &'static str =
    "SELECT id, title, started_at, ended_at, transcript, summary, created_at, updated_at
         FROM recordings WHERE id=?1";

/// `Connection::execute_batch` of `PRAGMA journal_mode=WAL;`: switching the
/// journal mode leaves the rows as they are.  Which journal mode results is
/// not stated: SQLite keeps the `memory` mode of an in-memory database and
/// reports no error for it.
#[verifier::external_body]
fn sql_enable_wal(conn: &mut Connection) -> (r: Result<(), rusqlite::Error>)
    ensures
        recordings_table(*final(conn)) == recordings_table(*old(conn)),
{
    conn.execute_batch("PRAGMA journal_mode=WAL;")
}

/// `Connection::execute_batch` of `CREATE TABLE IF NOT EXISTS recordings
/// (…)`: the table is created empty when it is missing and left as it is
/// otherwise, so after success the table is there.
#[verifier::external_body]
fn sql_create_table(conn: &mut Connection) -> (r: Result<(), rusqlite::Error>)
    ensures
        recordings_table(*final(conn)) == recordings_table(*old(conn)),
        r is Ok ==> has_recordings_table(*final(conn)),
{
    conn.execute_batch(CREATE_TABLE_SQL)
}

/// `Connection::execute` of `INSERT INTO recordings (id, title, started_at,
/// created_at, updated_at) VALUES (?1, ?2, ?3, ?4, ?4)`.  On success the
/// table gains the row; the primary key refuses an id that is already there;
/// a statement that fails changes nothing (SQLite statements are atomic).
#[verifier::external_body]
fn sql_insert(conn: &mut Connection, id: &str, title: &str, started_at: &str, now: &str) -> (r:
    Result<usize, rusqlite::Error>)
    ensures
        recordings_table(*old(conn)).dom().contains(id@) ==> r is Err,
        r is Ok ==> recordings_table(*final(conn)) == recordings_table(*old(conn)).insert(
            id@,
            fresh_row(title@, started_at@, now@),
        ),
        r is Err ==> recordings_table(*final(conn)) == recordings_table(*old(conn)),
{
    conn.execute(
        "INSERT INTO recordings (id, title, started_at, created_at, updated_at)
         VALUES (?1, ?2, ?3, ?4, ?4)",
        (id, title, started_at, now),
    )
}

/// `Connection::execute` of `UPDATE recordings SET ended_at=?1,
/// transcript=?2, summary=?3, updated_at=?4 WHERE id=?5`.
#[verifier::external_body]
fn sql_finalize(
    conn: &mut Connection,
    id: &str,
    ended_at: &str,
    transcript: &str,
    summary: Option<&str>,
    now: &str,
) -> (r: Result<usize, rusqlite::Error>)
    ensures
        r is Ok ==> recordings_table(*final(conn)) == finalized(
            recordings_table(*old(conn)),
            id@,
            ended_at@,
            transcript@,
            opt_str_view(summary),
            now@,
        ),
        r is Err ==> recordings_table(*final(conn)) == recordings_table(*old(conn)),
{
    conn.execute(
        "UPDATE recordings SET ended_at=?1, transcript=?2, summary=?3, updated_at=?4 WHERE id=?5",
        (ended_at, transcript, summary, now, id),
    )
}

/// `Connection::execute` of `UPDATE recordings SET title=?1, updated_at=?2
/// WHERE id=?3`.
#[verifier::external_body]
fn sql_set_title(conn: &mut Connection, id: &str, title: &str, now: &str) -> (r: Result<
    usize,
    rusqlite::Error,
>)
    ensures
        r is Ok ==> recordings_table(*final(conn)) == edited(
            recordings_table(*old(conn)),
            id@,
            Some(title@),
            None,
            None,
            now@,
        ),
        r is Err ==> recordings_table(*final(conn)) == recordings_table(*old(conn)),
{
    conn.execute("UPDATE recordings SET title=?1, updated_at=?2 WHERE id=?3", (title, now, id))
}

/// `Connection::execute` of `UPDATE recordings SET transcript=?1,
/// updated_at=?2 WHERE id=?3`.
#[verifier::external_body]
fn sql_set_transcript(conn: &mut Connection, id: &str, transcript: &str, now: &str) -> (r: Result<
    usize,
    rusqlite::Error,
>)
    ensures
        r is Ok ==> recordings_table(*final(conn)) == edited(
            recordings_table(*old(conn)),
            id@,
            None,
            Some(transcript@),
            None,
            now@,
        ),
        r is Err ==> recordings_table(*final(conn)) == recordings_table(*old(conn)),
{
    conn.execute(
        "UPDATE recordings SET transcript=?1, updated_at=?2 WHERE id=?3",
        (transcript, now, id),
    )
}

/// `Connection::execute` of `UPDATE recordings SET summary=?1, updated_at=?2
/// WHERE id=?3`.
#[verifier::external_body]
fn sql_set_summary(conn: &mut Connection, id: &str, summary: &str, now: &str) -> (r: Result<
    usize,
    rusqlite::Error,
>)
    ensures
        r is Ok ==> recordings_table(*final(conn)) == edited(
            recordings_table(*old(conn)),
            id@,
            None,
            None,
            Some(summary@),
            now@,
        ),
        r is Err ==> recordings_table(*final(conn)) == recordings_table(*old(conn)),
{
    conn.execute("UPDATE recordings SET summary=?1, updated_at=?2 WHERE id=?3", (summary, now, id))
}

/// `Connection::execute` of `DELETE FROM recordings WHERE id=?1`.
#[verifier::external_body]
fn sql_delete(conn: &mut Connection, id: &str) -> (r: Result<usize, rusqlite::Error>)
    ensures
        r is Ok ==> recordings_table(*final(conn)) == recordings_table(*old(conn)).remove(id@),
        r is Err ==> recordings_table(*final(conn)) == recordings_table(*old(conn)),
{
    conn.execute("DELETE FROM recordings WHERE id=?1", (id,))
}

/// `Connection::prepare` and `Statement::query_map` of `SELECT … FROM
/// recordings WHERE id=?1`, reading the first row: the row stored under `id`,
/// if any (the id is the primary key).
#[verifier::external_body]
fn sql_select_one(conn: &Connection, id: &str) -> (r: Result<Option<RowColumns>, rusqlite::Error>)
    ensures
        r matches Ok(found) ==> match found {
            Some(c) => recordings_table(*conn).dom().contains(id@) && columns_id(c) == id@
                && columns_row(c) == recordings_table(*conn)[id@],
            None => !recordings_table(*conn).dom().contains(id@),
        },
{
    let mut stmt = conn.prepare(SELECT_ONE_SQL)?;
    let mut rows = stmt.query_map((id,), |row| RowColumns::try_from(row))?;
    rows.next().transpose()
}

/// `Connection::prepare` and `Statement::query_map` of `SELECT … FROM
/// recordings ORDER BY started_at DESC`, collecting the rows: every row once,
/// ordered by start time, latest first.  Rows with the same start time come in
/// an order that SQLite does not fix.
#[verifier::external_body]
fn sql_select_all(conn: &Connection) -> (r: Result<Vec<RowColumns>, rusqlite::Error>)
    ensures
        r matches Ok(rows) ==> lists_newest_first(rows@, recordings_table(*conn)),
{
    let mut stmt = conn.prepare(SELECT_ALL_SQL)?;
    let rows = stmt.query_map((), |row| RowColumns::try_from(row))?;
    rows.collect()
}

/// A failed database operation, with the driver's message.
#[derive(Debug, Clone)]
pub struct DbError {
    pub message: String,
}

fn db_error(e: rusqlite::Error) -> (r: DbError) {
    DbError { message: e.to_string() }
}

fn clone_opt(o: &Option<String>) -> (r: Option<String>)
    ensures
        opt_view(r) == opt_view(*o),
{
    match o {
        Some(s) => Some(s.clone()),
        None => None,
    }
}

/// The recording that a query row holds.
fn recording_from_columns(c: &RowColumns) -> (r: Recording)
    ensures
        r.id@ == columns_id(*c),
        row_of(r) == columns_row(*c),
{
    Recording {
        id: c.0.clone(),
        title: c.1.clone(),
        started_at: c.2.clone(),
        ended_at: clone_opt(&c.3),
        transcript: clone_opt(&c.4),
        summary: clone_opt(&c.5),
        created_at: c.6.clone(),
        updated_at: c.7.clone(),
    }
}

/// Prepare a freshly opened database: ask for write-ahead journaling, then
/// create the recordings table when it is missing.  Existing rows are kept,
/// and after success the table is there.
pub fn init_schema(conn: &mut Connection) -> (r: Result<(), DbError>)
    ensures
        recordings_table(*final(conn)) == recordings_table(*old(conn)),
        r is Ok ==> has_recordings_table(*final(conn)),
{
    match sql_enable_wal(conn) {
        Ok(()) => {},
        Err(e) => return Err(db_error(e)),
    }
    match sql_create_table(conn) {
        Ok(()) => Ok(()),
        Err(e) => Err(db_error(e)),
    }
}

/// The default title of a recording started at `started_at`:
/// `Meeting YYYY-MM-DD HH:MM`.
pub open spec fn meeting_title(started_at: Timestamp) -> Seq<char> {
    "Meeting "@ + started_at.minute()
}

/// Insert a new recording started at `started_at`, under a fresh random id,
/// with the default title, and return the id.  On failure nothing is stored.
pub fn insert_recording(conn: &mut Connection, started_at: &Timestamp) -> (r: Result<
    String,
    DbError,
>)
    requires
        started_at.wf(),
    ensures
        r matches Ok(id) ==> {
            &&& is_uuid_v4_text(id@)
            &&& !recordings_table(*old(conn)).dom().contains(id@)
            &&& recordings_table(*final(conn)) == recordings_table(*old(conn)).insert(
                id@,
                fresh_row(
                    meeting_title(*started_at),
                    started_at.rfc3339(),
                    stamp_of(recordings_table(*final(conn)), id@),
                ),
            )
            &&& is_time_text(stamp_of(recordings_table(*final(conn)), id@))
        },
        r is Err ==> recordings_table(*final(conn)) == recordings_table(*old(conn)),
{
    let id = new_uuid_v4();
    let now_ts = Timestamp::now();
    let now = now_ts.to_rfc3339();
    assert(is_time_text(now@));
    let title = concat_str("Meeting ", started_at.to_minute_text().as_str());
    let started = started_at.to_rfc3339();
    match sql_insert(conn, id.as_str(), title.as_str(), started.as_str(), now.as_str()) {
        Ok(_) => Ok(id),
        Err(e) => Err(db_error(e)),
    }
}

/// Close recording `id`: set its end time, transcript and summary.  An id
/// that is not stored changes nothing and is no error.
pub fn finalize_recording(
    conn: &mut Connection,
    id: &str,
    ended_at: &Timestamp,
    transcript: &str,
    summary: Option<&str>,
) -> (r: Result<(), DbError>)
    requires
        ended_at.wf(),
    ensures
        r is Ok ==> recordings_table(*final(conn)) == finalized(
            recordings_table(*old(conn)),
            id@,
            ended_at.rfc3339(),
            transcript@,
            opt_str_view(summary),
            stamp_of(recordings_table(*final(conn)), id@),
        ),
        r is Ok && recordings_table(*old(conn)).dom().contains(id@) ==> is_time_text(
            stamp_of(recordings_table(*final(conn)), id@),
        ),
        r is Err ==> recordings_table(*final(conn)) == recordings_table(*old(conn)),
{
    let now_ts = Timestamp::now();
    let now = now_ts.to_rfc3339();
    assert(is_time_text(now@));
    let ended = ended_at.to_rfc3339();
    match sql_finalize(conn, id, ended.as_str(), transcript, summary, now.as_str()) {
        Ok(_) => Ok(()),
        Err(e) => Err(db_error(e)),
    }
}

/// All recordings, latest start first.
pub fn list_recordings(conn: &Connection) -> (r: Result<Vec<Recording>, DbError>)
    ensures
        r matches Ok(v) ==> {
            &&& forall|i: int|
                0 <= i < v@.len() ==> recordings_table(*conn).dom().contains(
                    (#[trigger] v@[i]).id@,
                ) && recordings_table(*conn)[v@[i].id@] == row_of(v@[i])
            &&& forall|i: int, j: int|
                0 <= i < j < v@.len() ==> (#[trigger] v@[i]).id@ != (#[trigger] v@[j]).id@
            &&& forall|id: Seq<char>|
                recordings_table(*conn).dom().contains(id) ==> exists|i: int|
                    0 <= i < v@.len() && (#[trigger] v@[i]).id@ == id
            &&& forall|i: int, j: int|
                0 <= i < j < v@.len() ==> !text_lt(
                    (#[trigger] v@[i]).started_at@,
                    (#[trigger] v@[j]).started_at@,
                )
        },
{
    let rows = match sql_select_all(conn) {
        Ok(rows) => rows,
        Err(e) => return Err(db_error(e)),
    };
    let ghost t = recordings_table(*conn);
    let mut out: Vec<Recording> = Vec::new();
    let mut i: usize = 0;
    while i < rows.len()
        invariant
            i <= rows@.len(),
            out@.len() == i,
            lists_newest_first(rows@, t),
            forall|k: int|
                0 <= k < i ==> (#[trigger] out@[k]).id@ == columns_id(rows@[k]) && row_of(out@[k])
                    == columns_row(rows@[k]),
        decreases rows@.len() - i,
    {
        out.push(recording_from_columns(&rows[i]));
        i = i + 1;
    }
    proof {
        assert forall|id: Seq<char>| t.dom().contains(id) implies exists|k: int|
            0 <= k < out@.len() && (#[trigger] out@[k]).id@ == id by {
            let k = choose|k: int| 0 <= k < rows@.len() && columns_id(#[trigger] rows@[k]) == id;
            assert(out@[k].id@ == id);
        }
        assert forall|a: int, b: int| 0 <= a < b < out@.len() implies !text_lt(
            (#[trigger] out@[a]).started_at@,
            (#[trigger] out@[b]).started_at@,
        ) by {
            assert(!text_lt(rows@[a].2@, rows@[b].2@));
        }
        assert forall|a: int, b: int| 0 <= a < b < out@.len() implies (#[trigger] out@[a]).id@
            != (#[trigger] out@[b]).id@ by {
            assert(columns_id(rows@[a]) != columns_id(rows@[b]));
        }
        assert forall|a: int| 0 <= a < out@.len() implies recordings_table(*conn).dom().contains(
            (#[trigger] out@[a]).id@,
        ) && recordings_table(*conn)[out@[a].id@] == row_of(out@[a]) by {
            assert(t.dom().contains(columns_id(rows@[a])));
        }
    }
    Ok(out)
}

/// The recording stored under `id`, if any.
pub fn get_recording(conn: &Connection, id: &str) -> (r: Result<Option<Recording>, DbError>)
    ensures
        r matches Ok(found) ==> match found {
            Some(rec) => recordings_table(*conn).dom().contains(id@) && rec.id@ == id@ && row_of(
                rec,
            ) == recordings_table(*conn)[id@],
            None => !recordings_table(*conn).dom().contains(id@),
        },
{
    match sql_select_one(conn, id) {
        Ok(Some(c)) => Ok(Some(recording_from_columns(&c))),
        Ok(None) => Ok(None),
        Err(e) => Err(db_error(e)),
    }
}

/// Edit recording `id`: each of `title`, `transcript` and `summary` that is
/// given replaces the stored value, one statement each, in that order.  An id
/// that is not stored, or no field given, changes nothing.  On failure the
/// fields written before the failing statement stay written.
pub fn update_recording(
    conn: &mut Connection,
    id: &str,
    title: Option<&str>,
    transcript: Option<&str>,
    summary: Option<&str>,
) -> (r: Result<(), DbError>)
    ensures
        title is None && transcript is None && summary is None ==> r is Ok,
        r is Ok ==> recordings_table(*final(conn)) == edited(
            recordings_table(*old(conn)),
            id@,
            opt_str_view(title),
            opt_str_view(transcript),
            opt_str_view(summary),
            stamp_of(recordings_table(*final(conn)), id@),
        ),
        r is Ok && recordings_table(*old(conn)).dom().contains(id@) && (title is Some
            || transcript is Some || summary is Some) ==> is_time_text(
            stamp_of(recordings_table(*final(conn)), id@),
        ),
        r is Err ==> {
            ||| recordings_table(*final(conn)) == recordings_table(*old(conn))
            ||| recordings_table(*final(conn)) == edited(
                recordings_table(*old(conn)),
                id@,
                opt_str_view(title),
                None,
                None,
                stamp_of(recordings_table(*final(conn)), id@),
            )
            ||| recordings_table(*final(conn)) == edited(
                recordings_table(*old(conn)),
                id@,
                opt_str_view(title),
                opt_str_view(transcript),
                None,
                stamp_of(recordings_table(*final(conn)), id@),
            )
        },
{
    let now_ts = Timestamp::now();
    let now = now_ts.to_rfc3339();
    assert(is_time_text(now@));
    if let Some(t) = title {
        match sql_set_title(conn, id, t, now.as_str()) {
            Ok(_) => {},
            Err(e) => return Err(db_error(e)),
        }
    }
    if let Some(t) = transcript {
        match sql_set_transcript(conn, id, t, now.as_str()) {
            Ok(_) => {},
            Err(e) => return Err(db_error(e)),
        }
    }
    if let Some(s) = summary {
        match sql_set_summary(conn, id, s, now.as_str()) {
            Ok(_) => {},
            Err(e) => return Err(db_error(e)),
        }
    }
    Ok(())
}

/// Delete recording `id`; an id that is not stored is no error.
pub fn delete_recording(conn: &mut Connection, id: &str) -> (r: Result<(), DbError>)
    ensures
        r is Ok ==> recordings_table(*final(conn)) == recordings_table(*old(conn)).remove(id@),
        r is Err ==> recordings_table(*final(conn)) == recordings_table(*old(conn)),
{
    match sql_delete(conn, id) {
        Ok(_) => Ok(()),
        Err(e) => Err(db_error(e)),
    }
}


/// What reading recording `id` from table `t` gives: its row, or nothing.
pub open spec fn lookup(t: Map<Seq<char>, RowView>, id: Seq<char>) -> Option<RowView> {
    if t.dom().contains(id) {
        Some(t[id])
    } else {
        None
    }
}

/// A new recording reads back as inserted: the default title `Meeting …`,
/// its start time, no end, transcript or summary; other recordings read as
/// before.
pub proof fn law_read_after_insert(
    t: Map<Seq<char>, RowView>,
    id: Seq<char>,
    started_at: Timestamp,
    now: Seq<char>,
    other: Seq<char>,
)
    requires
        !t.dom().contains(id),
    ensures
        ({
            let t2 = t.insert(id, fresh_row(meeting_title(started_at), started_at.rfc3339(), now));
            &&& lookup(t2, id) matches Some(row) && row.title.take(8) == "Meeting "@
                && row.started_at == started_at.rfc3339() && row.ended_at is None
                && row.transcript is None && row.summary is None
            &&& other != id ==> lookup(t2, other) == lookup(t, other)
            &&& t2.dom().len() == t.dom().len() + 1 || !t.dom().finite()
        }),
{
    reveal_strlit("Meeting ");
    let title = meeting_title(started_at);
    assert(title.take(8) =~= "Meeting "@);
    if t.dom().finite() {
        assert(t.insert(id, fresh_row(title, started_at.rfc3339(), now)).dom() =~= t.dom().insert(
            id,
        ));
    }
}

/// An edit reads back as written: each given field has its new value, each
/// field not given keeps its old value, and other recordings read as before.
/// Editing a recording that is not stored, or giving no field, changes
/// nothing.
pub proof fn law_read_after_edit(
    t: Map<Seq<char>, RowView>,
    id: Seq<char>,
    title: Option<Seq<char>>,
    transcript: Option<Seq<char>>,
    summary: Option<Seq<char>>,
    now: Seq<char>,
    other: Seq<char>,
)
    ensures
        ({
            let t2 = edited(t, id, title, transcript, summary, now);
            &&& t.dom().contains(id) ==> (lookup(t2, id) matches Some(row) && {
                &&& row.title == (match title {
                    Some(x) => x,
                    None => t[id].title,
                })
                &&& row.transcript == (match transcript {
                    Some(x) => Some(x),
                    None => t[id].transcript,
                })
                &&& row.summary == (match summary {
                    Some(x) => Some(x),
                    None => t[id].summary,
                })
                &&& row.started_at == t[id].started_at
                &&& row.ended_at == t[id].ended_at
                &&& row.created_at == t[id].created_at
            })
            &&& other != id ==> lookup(t2, other) == lookup(t, other)
            &&& !t.dom().contains(id) ==> t2 == t
            &&& (title is None && transcript is None && summary is None) ==> t2 == t
        }),
{
    if t.dom().contains(id) && title is None && transcript is None && summary is None {
        assert(edited_row(t[id], title, transcript, summary, now) == t[id]);
        assert(t.insert(id, t[id]) =~= t);
    }
}

/// A finalized recording reads back with its end time, transcript and
/// summary; its title and start are kept, and other recordings read as
/// before.
pub proof fn law_read_after_finalize(
    t: Map<Seq<char>, RowView>,
    id: Seq<char>,
    ended_at: Seq<char>,
    transcript: Seq<char>,
    summary: Option<Seq<char>>,
    now: Seq<char>,
    other: Seq<char>,
)
    ensures
        ({
            let t2 = finalized(t, id, ended_at, transcript, summary, now);
            &&& t.dom().contains(id) ==> (lookup(t2, id) matches Some(row) && row.ended_at == Some(
                ended_at,
            ) && row.transcript == Some(transcript) && row.summary == summary && row.title
                == t[id].title && row.started_at == t[id].started_at)
            &&& other != id ==> lookup(t2, other) == lookup(t, other)
            &&& !t.dom().contains(id) ==> t2 == t
        }),
{
}

/// A deleted recording reads as missing, and every other recording reads as
/// before.
pub proof fn law_read_after_delete(t: Map<Seq<char>, RowView>, id: Seq<char>, other: Seq<char>)
    ensures
        lookup(t.remove(id), id) is None,
        other != id ==> lookup(t.remove(id), other) == lookup(t, other),
{
}

} // verus!
