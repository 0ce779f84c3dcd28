//! What the user interface's commands do with the recordings table, with
//! errors as the messages the interface shows.
use vstd::prelude::*;
use rusqlite::Connection;
use crate::db::{
    DbError, Recording, RowView, delete_recording, edited, get_recording, list_recordings, opt_str_view,
    recordings_table, row_of, stamp_of, text_lt, update_recording,
};

verus! {

/// The message for a recording that is missing or has no transcript.
pub open spec fn no_transcript_message() -> Seq<char> {
    "Recording not found or has no transcript"@
}

/// The message for a summary that could not be made.
pub open spec fn no_summary_message() -> Seq<char> {
    "Summarization failed or backend not configured"@
}

/// All recordings, latest start first.
pub fn list_recordings_inner(conn: &Connection) -> (r: Result<Vec<Recording>, String>)
    ensures
        r matches Ok(v) ==> {
            &&& forall|i: int|
                0 <= i < v@.len() ==> recordings_table(*conn).dom().contains(
                    (#[trigger] v@[i]).id@,
                ) && recordings_table(*conn)[v@[i].id@] == row_of(v@[i])
            &&& forall|i: int, j: int|
                0 <= i < j < v@.len() ==> (#[trigger] v@[i]).id@ != (#[trigger] v@[j]).id@
            &&& forall|id: Seq<char>|
                recordings_table(*conn).dom().contains(id) ==> exists|i: int|
                    0 <= i < v@.len() && (#[trigger] v@[i]).id@ == id
            &&& forall|i: int, j: int|
                0 <= i < j < v@.len() ==> !text_lt(
                    (#[trigger] v@[i]).started_at@,
                    (#[trigger] v@[j]).started_at@,
                )
        },
{
    match list_recordings(conn) {
        Ok(v) => Ok(v),
        Err(e) => Err(e.message),
    }
}

/// The recording stored under `id`, if any.
pub fn get_recording_inner(conn: &Connection, id: &str) -> (r: Result<Option<Recording>, String>)
    ensures
        r matches Ok(found) ==> match found {
            Some(rec) => recordings_table(*conn).dom().contains(id@) && rec.id@ == id@ && row_of(
                rec,
            ) == recordings_table(*conn)[id@],
            None => !recordings_table(*conn).dom().contains(id@),
        },
{
    match get_recording(conn, id) {
        Ok(found) => Ok(found),
        Err(e) => Err(e.message),
    }
}

/// Edit the given fields of recording `id`; a missing id is no error.
pub fn update_recording_inner(
    conn: &mut Connection,
    id: &str,
    title: Option<&str>,
    transcript: Option<&str>,
    summary: Option<&str>,
) -> (r: Result<(), String>)
    ensures
        title is None && transcript is None && summary is None ==> r is Ok,
        r is Ok ==> recordings_table(*final(conn)) == edited(
            recordings_table(*old(conn)),
            id@,
            opt_str_view(title),
            opt_str_view(transcript),
            opt_str_view(summary),
            stamp_of(recordings_table(*final(conn)), id@),
        ),
        r is Err ==> {
            ||| recordings_table(*final(conn)) == recordings_table(*old(conn))
            ||| recordings_table(*final(conn)) == edited(
                recordings_table(*old(conn)),
                id@,
                opt_str_view(title),
                None,
                None,
                stamp_of(recordings_table(*final(conn)), id@),
            )
            ||| recordings_table(*final(conn)) == edited(
                recordings_table(*old(conn)),
                id@,
                opt_str_view(title),
                opt_str_view(transcript),
                None,
                stamp_of(recordings_table(*final(conn)), id@),
            )
        },
{
    match update_recording(conn, id, title, transcript, summary) {
        Ok(()) => Ok(()),
        Err(e) => Err(e.message),
    }
}

/// Delete recording `id`; a missing id is no error.
pub fn delete_recording_inner(conn: &mut Connection, id: &str) -> (r: Result<(), String>)
    ensures
        r is Ok ==> recordings_table(*final(conn)) == recordings_table(*old(conn)).remove(id@),
        r is Err ==> recordings_table(*final(conn)) == recordings_table(*old(conn)),
{
    match delete_recording(conn, id) {
        Ok(()) => Ok(()),
        Err(e) => Err(e.message),
    }
}

/// Whether `found` is a possible outcome of reading recording `id` from the
/// table `t`: its row when it is there, nothing when it is not, or a
/// database failure.
pub open spec fn read_outcome_fits(
    t: Map<Seq<char>, RowView>,
    id: Seq<char>,
    found: Result<Option<Recording>, DbError>,
) -> bool {
    match found {
        Ok(Some(rec)) => t.dom().contains(id) && rec.id@ == id && row_of(rec) == t[id],
        Ok(None) => !t.dom().contains(id),
        Err(_) => true,
    }
}

/// The view of a text result.
pub open spec fn text_result_view(r: Result<String, String>) -> Result<Seq<char>, Seq<char>> {
    match r {
        Ok(s) => Ok(s@),
        Err(m) => Err(m@),
    }
}

/// The transcript to summarize again, or the error message, for a given
/// outcome of reading the recording.
pub open spec fn summary_transcript_of(found: Result<Option<Recording>, DbError>) -> Result<
    Seq<char>,
    Seq<char>,
> {
    match found {
        Err(e) => Err(e.message@),
        Ok(None) => Err(no_transcript_message()),
        Ok(Some(rec)) => match rec.transcript {
            Some(t) => Ok(t@),
            None => Err(no_transcript_message()),
        },
    }
}

/// The transcript to summarize again, from what reading recording `id`
/// gave: the stored transcript; a database failure's message; or the "not
/// found or has no transcript" message for a missing recording or one
/// without a transcript.
pub fn transcript_for_summary(found: Result<Option<Recording>, DbError>) -> (r: Result<
    String,
    String,
>)
    ensures
        match found {
            Err(e) => r matches Err(m) && m@ == e.message@,
            Ok(None) => r matches Err(m) && m@ == no_transcript_message(),
            Ok(Some(rec)) => match rec.transcript {
                Some(t) => r matches Ok(s) && s@ == t@,
                None => r matches Err(m) && m@ == no_transcript_message(),
            },
        },
        text_result_view(r) == summary_transcript_of(found),
{
    match found {
        Err(e) => Err(e.message),
        Ok(None) => Err(String::from_str("Recording not found or has no transcript")),
        Ok(Some(rec)) => match rec.transcript {
            Some(t) => Ok(t),
            None => Err(String::from_str("Recording not found or has no transcript")),
        },
    }
}

/// The first half of regenerating a summary: the stored transcript of
/// recording `id`.  A recording that is missing or has no transcript yet is
/// an error: when the read succeeds, the "not found or has no transcript"
/// message; when the database fails, its message.
pub fn retry_summary_transcript(conn: &Connection, id: &str) -> (r: Result<String, String>)
    ensures
        r matches Ok(t) ==> recordings_table(*conn).dom().contains(id@) && recordings_table(
            *conn,
        )[id@].transcript == Some(t@),
        !(recordings_table(*conn).dom().contains(id@) && recordings_table(*conn)[id@].transcript
            is Some) ==> r is Err,
        exists|found: Result<Option<Recording>, DbError>|
            #[trigger] read_outcome_fits(recordings_table(*conn), id@, found) && text_result_view(r)
                == summary_transcript_of(found),
{
    let found = get_recording(conn, id);
    let ghost g = found;
    let r = transcript_for_summary(found);
    assert(read_outcome_fits(recordings_table(*conn), id@, g));
    r
}

/// The second half of regenerating a summary: store the new summary of
/// recording `id`, or report that none could be made.
pub fn retry_summary_store(conn: &mut Connection, id: &str, summary: Option<String>) -> (r: Result<
    (),
    String,
>)
    ensures
        summary is None ==> (r matches Err(m) && m@ == no_summary_message()),
        summary is None ==> recordings_table(*final(conn)) == recordings_table(*old(conn)),
        summary matches Some(s) ==> {
            &&& r is Ok ==> recordings_table(*final(conn)) == edited(
                recordings_table(*old(conn)),
                id@,
                None,
                None,
                Some(s@),
                stamp_of(recordings_table(*final(conn)), id@),
            )
            &&& r is Err ==> recordings_table(*final(conn)) == recordings_table(*old(conn))
        },
{
    match summary {
        None => Err(String::from_str("Summarization failed or backend not configured")),
        Some(s) => update_recording_inner(conn, id, None, None, Some(s.as_str())),
    }
}

} // verus!
