//! The recording state machine.
//!
//! The recorder runs a loop that the caller drives: once per analysis tick it
//! reports whether each stream was active (`Recorder::on_activity`), which
//! source dominated the tick's audio (`Recorder::on_audio`) and the text of a
//! transcribed segment (`Recorder::on_segment_text`); commands from the user
//! arrive as `start_manual`, `stop_manual` and `update_config`.  Starting a
//! recording inserts its row; a recording to stop is handed back to the
//! caller, which transcribes the rest of its audio and summarizes it before
//! `finish_recording` stores it.  What the user interface is told comes back
//! from these functions as a list of `RecorderEvent`s, which the caller hands
//! to its `EventEmitter` with `emit_events`.
use vstd::prelude::*;
use rusqlite::Connection;
use crate::activity::{ActivityConfig, ActivityDetector, ActivityState, step};
use crate::clock::{Timestamp, is_uuid_v4_text};
use crate::db::{
    DbError, finalize_recording, finalized, fresh_row, insert_recording, meeting_title, opt_str_view,
    recordings_table, stamp_of,
};
use crate::segmentation::{DominantSource, Segmenter, is_switch};
use crate::text::{concat_str, opt_view, prefix_chars, take_chars};

verus! {

/// What the user interface is told about the recorder.
#[derive(Debug, Clone)]
pub struct RecordingStatus {
    pub is_recording: bool,
    pub recording_id: Option<String>,
    pub transcript_preview: String,
}

/// Where the recorder's events go (the application window, or a test).
pub trait EventEmitter {
    fn emit_status(&self, status: RecordingStatus);

    fn emit_started(&self, id: &str);

    fn emit_stopped(&self, id: &str);
}

/// An event that the recorder announces.  The recorder's decisions return
/// their events in order; `emit_events` hands them to an `EventEmitter`.
#[derive(Debug, Clone)]
pub enum RecorderEvent {
    /// A new recording status.
    Status(RecordingStatus),
    /// The recording with this id has started.
    Started(String),
    /// The recording with this id has stopped.
    Stopped(String),
}

/// An event as the contracts speak of it.
pub ghost enum EventView {
    Status { is_recording: bool, id: Option<Seq<char>>, preview: Seq<char> },
    Started(Seq<char>),
    Stopped(Seq<char>),
}

/// The view of a status.
pub open spec fn status_view(s: RecordingStatus) -> EventView {
    EventView::Status {
        is_recording: s.is_recording,
        id: opt_view(s.recording_id),
        preview: s.transcript_preview@,
    }
}

/// The view of an event.
pub open spec fn event_view(e: RecorderEvent) -> EventView {
    match e {
        RecorderEvent::Status(s) => status_view(s),
        RecorderEvent::Started(id) => EventView::Started(id@),
        RecorderEvent::Stopped(id) => EventView::Stopped(id@),
    }
}

/// The views of a list of events.
pub open spec fn events_view(evs: Seq<RecorderEvent>) -> Seq<EventView> {
    evs.map_values(|e: RecorderEvent| event_view(e))
}

/// The status of recording `id` with transcript `transcript`: recording, and
/// the transcript's first `PREVIEW_CHARS` characters as preview.
pub open spec fn recording_status_view(id: Seq<char>, transcript: Seq<char>) -> EventView {
    EventView::Status {
        is_recording: true,
        id: Some(id),
        preview: take_chars(transcript, PREVIEW_CHARS as nat),
    }
}

/// The status of a recorder that is not recording.
pub open spec fn idle_status_view() -> EventView {
    EventView::Status { is_recording: false, id: None, preview: Seq::empty() }
}

/// What starting recording `id` announces: its status with an empty
/// transcript, then `Started(id)`.
pub open spec fn started_events(id: Seq<char>) -> Seq<EventView> {
    seq![recording_status_view(id, Seq::empty()), EventView::Started(id)]
}

/// What stopping recording `id` announces: the idle status, then
/// `Stopped(id)`.
pub open spec fn stopped_events(id: Seq<char>) -> Seq<EventView> {
    seq![idle_status_view(), EventView::Stopped(id)]
}

/// Append one event.
fn push_event(events: &mut Vec<RecorderEvent>, e: RecorderEvent)
    ensures
        events_view(final(events)@) == events_view(old(events)@).push(event_view(e)),
{
    events.push(e);
    proof {
        assert(events_view(events@) =~= events_view(old(events)@).push(event_view(e)));
    }
}

/// Hand the events, in order, to `emitter`.
pub fn emit_events<E: EventEmitter>(emitter: &E, events: &Vec<RecorderEvent>) {
    let mut i: usize = 0;
    while i < events.len()
        invariant
            i <= events@.len(),
        decreases events@.len() - i,
    {
        match &events[i] {
            RecorderEvent::Status(s) => emitter.emit_status(s.clone()),
            RecorderEvent::Started(id) => emitter.emit_started(id.as_str()),
            RecorderEvent::Stopped(id) => emitter.emit_stopped(id.as_str()),
        }
        i = i + 1;
    }
}

/// How many characters of the transcript a status carries.
pub const PREVIEW_CHARS: usize = 200;

/// The status of a recorder that is not recording.
pub fn idle_status() -> (s: RecordingStatus)
    ensures
        !s.is_recording,
        s.recording_id is None,
        s.transcript_preview@ == Seq::<char>::empty(),
        status_view(s) == idle_status_view(),
{
    RecordingStatus { is_recording: false, recording_id: None, transcript_preview: String::new() }
}

/// The status of a recorder that records `id` with transcript `transcript`:
/// the preview is the transcript's first `PREVIEW_CHARS` characters.
pub fn recording_status(id: &str, transcript: &str) -> (s: RecordingStatus)
    ensures
        s.is_recording,
        opt_view(s.recording_id) == Some(id@),
        s.transcript_preview@ == take_chars(transcript@, PREVIEW_CHARS as nat),
        status_view(s) == recording_status_view(id@, transcript@),
{
    RecordingStatus {
        is_recording: true,
        recording_id: Some(String::from_str(id)),
        transcript_preview: prefix_chars(transcript, PREVIEW_CHARS),
    }
}

/// The transcript after a segment's text is added: segments are separated by
/// one space, and empty text adds nothing.
pub open spec fn appended(transcript: Seq<char>, text: Seq<char>) -> Seq<char> {
    if text.len() == 0 {
        transcript
    } else if transcript.len() == 0 {
        text
    } else {
        transcript + " "@ + text
    }
}

/// A recording under way.
#[derive(Debug)]
pub struct InProgress {
    pub id: String,
    pub started_at: Timestamp,
    pub transcript: String,
}

impl InProgress {
    /// Add the text of one transcribed segment to the transcript.
    pub fn append_segment(&mut self, text: &str)
        ensures
            final(self).transcript@ == appended(old(self).transcript@, text@),
            final(self).id == old(self).id,
            final(self).started_at == old(self).started_at,
    {
        if text.is_empty() {
            return;
        }
        if self.transcript.as_str().is_empty() {
            self.transcript = String::from_str(text);
        } else {
            let with_space = concat_str(self.transcript.as_str(), " ");
            self.transcript = concat_str(with_space.as_str(), text);
        }
    }
}

/// Start a recording now: insert its row, announce it (a recording status,
/// then `Started` with its id) and return it with an empty transcript.  When
/// the row cannot be inserted nothing is announced and `None` is returned.
pub fn start_recording(conn: &mut Connection, events: &mut Vec<RecorderEvent>) -> (r: Option<
    InProgress,
>)
    ensures
        start_outcome(r, recordings_table(*old(conn)), recordings_table(*final(conn))),
        start_announced(r, old(events)@, final(events)@),
{
    let started_at = Timestamp::now();
    let id = match insert_recording(conn, &started_at) {
        Ok(id) => id,
        Err(_) => return None,
    };
    push_event(events, RecorderEvent::Status(recording_status(id.as_str(), "")));
    push_event(events, RecorderEvent::Started(String::from_str(id.as_str())));
    proof {
        reveal_strlit("");
        assert(take_chars(""@, PREVIEW_CHARS as nat) =~= Seq::<char>::empty());
        assert(events_view(events@) =~= events_view(old(events)@) + started_events(id@));
    }
    Some(InProgress { id, started_at, transcript: String::new() })
}

/// Store a recording that has ended at `ended_at` with its transcript and
/// `summary`, then announce it (the idle status, then `Stopped` with its id),
/// whether or not storing succeeded.  When storing fails the table is
/// unchanged and the error is returned.
pub fn finish_recording(
    conn: &mut Connection,
    ip: InProgress,
    ended_at: &Timestamp,
    summary: Option<&str>,
    events: &mut Vec<RecorderEvent>,
) -> (r: Result<(), DbError>)
    requires
        ended_at.wf(),
    ensures
        r is Ok ==> recordings_table(*final(conn)) == finalized(
            recordings_table(*old(conn)),
            ip.id@,
            ended_at.rfc3339(),
            ip.transcript@,
            opt_str_view(summary),
            stamp_of(recordings_table(*final(conn)), ip.id@),
        ),
        r is Err ==> recordings_table(*final(conn)) == recordings_table(*old(conn)),
        events_view(final(events)@) == events_view(old(events)@) + stopped_events(ip.id@),
{
    let ghost id = ip.id@;
    let stored = finalize_recording(conn, ip.id.as_str(), ended_at, ip.transcript.as_str(), summary);
    push_event(events, RecorderEvent::Status(idle_status()));
    push_event(events, RecorderEvent::Stopped(ip.id));
    proof {
        assert(events_view(events@) =~= events_view(old(events)@) + stopped_events(id));
    }
    stored
}

/// The recorder: the activity detector, the segmenter and the recording in
/// progress, if any.
pub struct Recorder {
    pub activity: ActivityDetector,
    pub segmenter: Segmenter,
    pub in_progress: Option<InProgress>,
}

impl Recorder {
    /// A recorder that is not recording.
    pub fn new(activity: ActivityConfig, interval_samples: u64) -> (r: Recorder)
        ensures
            r.activity.config_spec() == activity,
            r.activity.state_spec() == ActivityState::Idle,
            r.segmenter.interval_spec() == interval_samples,
            r.segmenter.count_spec() == 0,
            r.segmenter.dominant_spec() == DominantSource::Neither,
            r.in_progress is None,
    {
        Recorder {
            activity: ActivityDetector::new(activity),
            segmenter: Segmenter::new(interval_samples),
            in_progress: None,
        }
    }

    /// One analysis tick of activity detection.  With automatic recording
    /// off nothing changes.  Otherwise the window is fed to the detector; a
    /// start starts a recording when none is in progress, and a stop hands
    /// back the recording in progress for the caller to finish.
    pub fn on_activity(
        &mut self,
        auto_record: bool,
        mic_active: bool,
        sys_active: bool,
        conn: &mut Connection,
        events: &mut Vec<RecorderEvent>,
    ) -> (stopped: Option<InProgress>)
        ensures
            final(self).segmenter == old(self).segmenter,
            final(self).activity.config_spec() == old(self).activity.config_spec(),
            !auto_record ==> {
                &&& final(self).activity.state_spec() == old(self).activity.state_spec()
                &&& final(self).in_progress == old(self).in_progress
                &&& stopped is None
                &&& recordings_table(*final(conn)) == recordings_table(*old(conn))
                &&& final(events)@ == old(events)@
            },
            auto_record ==> {
                let (s2, t) = step(
                    old(self).activity.config_spec(),
                    old(self).activity.state_spec(),
                    mic_active,
                    sys_active,
                );
                &&& final(self).activity.state_spec() == s2
                &&& if t == Some(true) && old(self).in_progress is None {
                    &&& stopped is None
                    &&& start_outcome(
                        final(self).in_progress,
                        recordings_table(*old(conn)),
                        recordings_table(*final(conn)),
                    )
                    &&& start_announced(final(self).in_progress, old(events)@, final(events)@)
                } else if t == Some(false) && old(self).in_progress is Some {
                    &&& stopped == old(self).in_progress
                    &&& final(self).in_progress is None
                    &&& recordings_table(*final(conn)) == recordings_table(*old(conn))
                    &&& final(events)@ == old(events)@
                } else {
                    &&& stopped is None
                    &&& final(self).in_progress == old(self).in_progress
                    &&& recordings_table(*final(conn)) == recordings_table(*old(conn))
                    &&& final(events)@ == old(events)@
                }
            },
    {
        if !auto_record {
            return None;
        }
        let transition = self.activity.feed(mic_active, sys_active);
        match transition {
            Some(true) => {
                if self.in_progress.is_none() {
                    self.in_progress = start_recording(conn, events);
                }
                None
            },
            Some(false) => self.in_progress.take(),
            None => None,
        }
    }

    /// One tick's audio for segmentation, while a recording is in progress:
    /// `n_samples` samples whose dominant source was `dominant`.  Returns
    /// whether the recording's audio should now be flushed to transcription.
    /// Without a recording nothing changes and nothing is flushed.
    pub fn on_audio(&mut self, n_samples: usize, dominant: DominantSource) -> (flush: bool)
        requires
            old(self).segmenter.count_spec() + n_samples <= u64::MAX,
        ensures
            final(self).activity == old(self).activity,
            final(self).in_progress == old(self).in_progress,
            old(self).in_progress is None ==> !flush && final(self).segmenter == old(
                self,
            ).segmenter,
            old(self).in_progress is Some ==> {
                &&& flush == (is_switch(old(self).segmenter.dominant_spec(), dominant) || old(
                    self,
                ).segmenter.count_spec() + n_samples >= old(self).segmenter.interval_spec())
                &&& final(self).segmenter.count_spec() == if flush {
                    0
                } else {
                    old(self).segmenter.count_spec() + n_samples
                }
                &&& final(self).segmenter.dominant_spec() == if dominant == DominantSource::Neither {
                    old(self).segmenter.dominant_spec()
                } else {
                    dominant
                }
                &&& final(self).segmenter.interval_spec() == old(self).segmenter.interval_spec()
            },
    {
        if self.in_progress.is_none() {
            return false;
        }
        self.segmenter.advance(n_samples, dominant)
    }

    /// The text of a flushed segment (`None` when transcription gave
    /// nothing).  Non-empty text is added to the transcript of the recording
    /// in progress and announced in a recording status.
    pub fn on_segment_text(&mut self, text: Option<String>, events: &mut Vec<RecorderEvent>)
        ensures
            final(self).activity == old(self).activity,
            final(self).segmenter == old(self).segmenter,
            (final(self).in_progress is Some) == (old(self).in_progress is Some),
            old(self).in_progress matches Some(ip) ==> {
                &&& final(self).in_progress->0.id == ip.id
                &&& final(self).in_progress->0.started_at == ip.started_at
                &&& final(self).in_progress->0.transcript@ == match text {
                    Some(t) => appended(ip.transcript@, t@),
                    None => ip.transcript@,
                }
            },
            segment_announced(old(self).in_progress, text, old(events)@, final(events)@),
    {
        match (&mut self.in_progress, text) {
            (Some(ip), Some(t)) => {
                if !t.as_str().is_empty() {
                    ip.append_segment(t.as_str());
                    push_event(
                        events,
                        RecorderEvent::Status(recording_status(ip.id.as_str(), ip.transcript.as_str())),
                    );
                }
            },
            _ => {},
        }
    }

    /// The user's start command: when nothing is being recorded, start a
    /// recording and restart segmentation.  A recording in progress is kept.
    pub fn start_manual(&mut self, conn: &mut Connection, events: &mut Vec<RecorderEvent>)
        ensures
            final(self).activity == old(self).activity,
            old(self).in_progress is Some ==> {
                &&& final(self).in_progress == old(self).in_progress
                &&& final(self).segmenter == old(self).segmenter
                &&& recordings_table(*final(conn)) == recordings_table(*old(conn))
                &&& final(events)@ == old(events)@
            },
            old(self).in_progress is None ==> {
                &&& start_outcome(
                    final(self).in_progress,
                    recordings_table(*old(conn)),
                    recordings_table(*final(conn)),
                )
                &&& start_announced(final(self).in_progress, old(events)@, final(events)@)
                &&& final(self).segmenter.count_spec() == 0
                &&& final(self).segmenter.dominant_spec() == DominantSource::Neither
                &&& final(self).segmenter.interval_spec() == old(self).segmenter.interval_spec()
            },
    {
        if self.in_progress.is_none() {
            self.in_progress = start_recording(conn, events);
            self.segmenter.reset();
        }
    }

    /// The user's stop command: hand back the recording in progress, if any,
    /// for the caller to finish.
    pub fn stop_manual(&mut self) -> (stopped: Option<InProgress>)
        ensures
            stopped == old(self).in_progress,
            final(self).in_progress is None,
            final(self).activity == old(self).activity,
            final(self).segmenter == old(self).segmenter,
    {
        self.in_progress.take()
    }

    /// New settings: the detector's window counts and the flush interval
    /// change; the recording in progress and the detector's state are kept.
    pub fn update_config(&mut self, activity: ActivityConfig, interval_samples: u64)
        ensures
            final(self).activity.config_spec() == activity,
            final(self).activity.state_spec() == old(self).activity.state_spec(),
            final(self).segmenter.interval_spec() == interval_samples,
            final(self).segmenter.count_spec() == old(self).segmenter.count_spec(),
            final(self).segmenter.dominant_spec() == old(self).segmenter.dominant_spec(),
            final(self).in_progress == old(self).in_progress,
    {
        self.activity.update_config(activity);
        self.segmenter.update_interval(interval_samples);
    }
}

/// What starting a recording leaves: either a new recording with an empty
/// transcript whose row was inserted under a fresh id, or no recording and
/// an unchanged table.
pub open spec fn start_outcome(
    started: Option<InProgress>,
    before: Map<Seq<char>, crate::db::RowView>,
    after: Map<Seq<char>, crate::db::RowView>,
) -> bool {
    match started {
        Some(ip) => {
            &&& ip.transcript@ == Seq::<char>::empty()
            &&& ip.started_at.wf()
            &&& is_uuid_v4_text(ip.id@)
            &&& !before.dom().contains(ip.id@)
            &&& after == before.insert(
                ip.id@,
                fresh_row(
                    meeting_title(ip.started_at),
                    ip.started_at.rfc3339(),
                    stamp_of(after, ip.id@),
                ),
            )
        },
        None => after == before,
    }
}


/// What starting a recording announces: for a new recording, its status and
/// `Started` with its id, after the events already there; nothing when no
/// recording was started.
pub open spec fn start_announced(
    started: Option<InProgress>,
    before: Seq<RecorderEvent>,
    after: Seq<RecorderEvent>,
) -> bool {
    match started {
        Some(ip) => events_view(after) == events_view(before) + started_events(ip.id@),
        None => after == before,
    }
}

/// What a segment's text announces: when a recording is in progress and the
/// text is non-empty, the recording's status with its new transcript;
/// otherwise nothing.
pub open spec fn segment_announced(
    in_progress: Option<InProgress>,
    text: Option<String>,
    before: Seq<RecorderEvent>,
    after: Seq<RecorderEvent>,
) -> bool {
    match (in_progress, text) {
        (Some(ip), Some(t)) => if t@.len() > 0 {
            events_view(after) == events_view(before).push(
                recording_status_view(ip.id@, appended(ip.transcript@, t@)),
            )
        } else {
            after == before
        },
        _ => after == before,
    }
}

/// The transcript built from segment texts in order, each added with
/// `append_segment`.
pub open spec fn transcript_of(segments: Seq<Seq<char>>) -> Seq<char>
    decreases segments.len(),
{
    if segments.len() == 0 {
        Seq::empty()
    } else {
        appended(transcript_of(segments.drop_last()), segments.last())
    }
}

/// `parts` joined with single spaces.
pub open spec fn join_with_spaces(parts: Seq<Seq<char>>) -> Seq<char>
    decreases parts.len(),
{
    if parts.len() == 0 {
        Seq::empty()
    } else if parts.len() == 1 {
        parts[0]
    } else {
        join_with_spaces(parts.drop_last()) + " "@ + parts.last()
    }
}

/// Whether a segment text is non-empty.
pub open spec fn is_nonempty(t: Seq<char>) -> bool {
    t.len() > 0
}

proof fn lemma_join_nonempty(parts: Seq<Seq<char>>)
    requires
        parts.len() > 0,
        parts.last().len() > 0,
    ensures
        join_with_spaces(parts).len() > 0,
{
}

/// A recording's transcript is its non-empty segment texts, in order,
/// separated by single spaces: starting from an empty transcript, adding the
/// segments one by one gives exactly that.
pub proof fn law_transcript_joins_segments(segments: Seq<Seq<char>>)
    ensures
        transcript_of(segments) == join_with_spaces(
            segments.filter(|t: Seq<char>| is_nonempty(t)),
        ),
    decreases segments.len(),
{
    let p = |t: Seq<char>| is_nonempty(t);
    reveal_with_fuel(Seq::<_>::filter, 1);
    if segments.len() > 0 {
        law_transcript_joins_segments(segments.drop_last());
        let f = segments.drop_last().filter(p);
        if is_nonempty(segments.last()) {
            if f.len() > 0 {
                segments.drop_last().lemma_filter_pred(p, f.len() - 1);
                lemma_join_nonempty(f);
                assert(f.push(segments.last()).drop_last() =~= f);
            }
        }
    }
}

/// Which recording is open after the events `evs`, starting with `open`:
/// `Started(id)` opens `id` when none is open, `Stopped(id)` closes the open
/// recording `id`, and a status changes nothing.  `None` when the events
/// break that order.
pub open spec fn lifecycle(open: Option<Seq<char>>, evs: Seq<EventView>) -> Option<
    Option<Seq<char>>,
>
    decreases evs.len(),
{
    if evs.len() == 0 {
        Some(open)
    } else {
        match lifecycle(open, evs.drop_last()) {
            None => None,
            Some(o) => match evs.last() {
                EventView::Started(id) => if o is None {
                    Some(Some(id))
                } else {
                    None
                },
                EventView::Stopped(id) => if o == Some(id) {
                    Some(None)
                } else {
                    None
                },
                EventView::Status { .. } => Some(o),
            },
        }
    }
}

/// The events of two calls in a row follow the order when each call's
/// events do, from where the previous call left off.
proof fn lemma_lifecycle_concat(open: Option<Seq<char>>, a: Seq<EventView>, b: Seq<EventView>)
    ensures
        lifecycle(open, a + b) == match lifecycle(open, a) {
            Some(o) => lifecycle(o, b),
            None => None,
        },
    decreases b.len(),
{
    if b.len() == 0 {
        assert(a + b =~= a);
    } else {
        lemma_lifecycle_concat(open, a, b.drop_last());
        assert((a + b).drop_last() =~= a + b.drop_last());
        assert((a + b).last() == b.last());
    }
}

/// Started and stopped events alternate over a run, with matching ids:
/// starting a recording (`started_events`) opens its id when no recording is
/// open, finishing it (`stopped_events`) closes that same id, a recording
/// status on its own changes nothing, and announcements made one after
/// another keep that order.
pub proof fn law_started_stopped_alternate(
    open: Option<Seq<char>>,
    before: Seq<EventView>,
    after: Seq<EventView>,
    id: Seq<char>,
    transcript: Seq<char>,
)
    ensures
        lifecycle(None, started_events(id)) == Some(Some(id)),
        lifecycle(Some(id), stopped_events(id)) == Some(None::<Seq<char>>),
        lifecycle(open, seq![recording_status_view(id, transcript)]) == Some(open),
        lifecycle(open, before + after) == match lifecycle(open, before) {
            Some(o) => lifecycle(o, after),
            None => None,
        },
{
    lemma_lifecycle_concat(open, before, after);
    let st = started_events(id);
    assert(st.drop_last().drop_last() =~= Seq::<EventView>::empty());
    assert(lifecycle(None, st.drop_last().drop_last()) == Some(None::<Seq<char>>));
    assert(st.drop_last().last() == recording_status_view(id, Seq::empty()));
    assert(lifecycle(None, st.drop_last()) == Some(None::<Seq<char>>));
    assert(lifecycle(None, st) == Some(Some(id)));
    let sp = stopped_events(id);
    assert(sp.drop_last().drop_last() =~= Seq::<EventView>::empty());
    assert(lifecycle(Some(id), sp.drop_last().drop_last()) == Some(Some(id)));
    assert(sp.drop_last().last() == idle_status_view());
    assert(lifecycle(Some(id), sp.drop_last()) == Some(Some(id)));
    assert(lifecycle(Some(id), sp) == Some(None::<Seq<char>>));
    let one = seq![recording_status_view(id, transcript)];
    assert(one.drop_last() =~= Seq::<EventView>::empty());
    assert(lifecycle(open, one.drop_last()) == Some(open));
    assert(one.last() == recording_status_view(id, transcript));
}

/// Whether every event in `evs` is a status.
pub open spec fn only_statuses(evs: Seq<EventView>) -> bool {
    forall|i: int| 0 <= i < evs.len() ==> #[trigger] evs[i] is Status
}

/// How many `Started` events `evs` holds.
pub open spec fn started_count(evs: Seq<EventView>) -> nat
    decreases evs.len(),
{
    if evs.len() == 0 {
        0
    } else {
        started_count(evs.drop_last()) + if evs.last() is Started {
            1nat
        } else {
            0nat
        }
    }
}

/// One step of a recorder run, as the contracts of the recorder's functions
/// describe it: the recording open before and after the step (in progress,
/// or handed back by a stop and not yet finished), the events the step
/// announced, and the ids stored in the recordings table before and after.
pub ghost struct RunStep {
    pub open_before: Option<Seq<char>>,
    pub events: Seq<EventView>,
    pub rows_before: Set<Seq<char>>,
    pub rows_after: Set<Seq<char>>,
    pub open_after: Option<Seq<char>>,
}

/// The steps a run is made of: a start that inserted a new row and
/// announced it; the finish of the open recording; or a step that opens and
/// closes nothing, stores no new row and announces only statuses (a
/// command or window that changes nothing, a failed start, a stop that hands
/// the recording back, a transcribed segment).
pub open spec fn step_ok(st: RunStep) -> bool {
    ||| {
        &&& st.open_before is None
        &&& st.open_after matches Some(id) && {
            &&& st.events == started_events(id)
            &&& !st.rows_before.contains(id)
            &&& st.rows_after == st.rows_before.insert(id)
        }
    }
    ||| {
        &&& st.open_before matches Some(id) && st.events == stopped_events(id)
        &&& st.open_after is None
        &&& st.rows_after == st.rows_before
    }
    ||| {
        &&& st.open_after == st.open_before
        &&& st.rows_after == st.rows_before
        &&& only_statuses(st.events)
    }
}

/// Whether `steps` is a run: every step is one of the steps above, and each
/// starts where the one before ended.
pub open spec fn run_ok(steps: Seq<RunStep>) -> bool
    decreases steps.len(),
{
    if steps.len() == 0 {
        true
    } else {
        &&& run_ok(steps.drop_last())
        &&& step_ok(steps.last())
        &&& steps.len() > 1 ==> {
            &&& steps.drop_last().last().open_after == steps.last().open_before
            &&& steps.drop_last().last().rows_after == steps.last().rows_before
        }
    }
}

/// All events of a run, in order.
pub open spec fn run_events(steps: Seq<RunStep>) -> Seq<EventView>
    decreases steps.len(),
{
    if steps.len() == 0 {
        Seq::empty()
    } else {
        run_events(steps.drop_last()) + steps.last().events
    }
}

proof fn lemma_statuses_keep_open(open: Option<Seq<char>>, evs: Seq<EventView>)
    requires
        only_statuses(evs),
    ensures
        lifecycle(open, evs) == Some(open),
        started_count(evs) == 0,
    decreases evs.len(),
{
    if evs.len() > 0 {
        assert(evs.last() is Status);
        assert(only_statuses(evs.drop_last()));
        lemma_statuses_keep_open(open, evs.drop_last());
    }
}

proof fn lemma_started_count_concat(a: Seq<EventView>, b: Seq<EventView>)
    ensures
        started_count(a + b) == started_count(a) + started_count(b),
    decreases b.len(),
{
    if b.len() == 0 {
        assert(a + b =~= a);
    } else {
        lemma_started_count_concat(a, b.drop_last());
        assert((a + b).drop_last() =~= a + b.drop_last());
    }
}

proof fn lemma_step_events(st: RunStep)
    requires
        step_ok(st),
    ensures
        lifecycle(st.open_before, st.events) == Some(st.open_after),
        st.rows_after.len() == st.rows_before.len() + started_count(st.events)
            || !st.rows_before.finite(),
        st.rows_before.finite() ==> st.rows_after.finite(),
{
    let ghost empty = Seq::<EventView>::empty();
    if st.open_before is None && st.open_after is Some && st.events == started_events(
        st.open_after->0,
    ) && !st.rows_before.contains(st.open_after->0) && st.rows_after == st.rows_before.insert(
        st.open_after->0,
    ) {
        let id = st.open_after->0;
        law_started_stopped_alternate(None, empty, empty, id, Seq::<char>::empty());
        let e = started_events(id);
        assert(e.drop_last().drop_last() =~= empty);
        assert(started_count(e.drop_last().drop_last()) == 0);
        assert(e.drop_last().last() == recording_status_view(id, Seq::empty()));
        assert(started_count(e.drop_last()) == 0);
        assert(e.last() == EventView::Started(id));
        assert(started_count(e) == 1);
    } else if st.open_before is Some && st.events == stopped_events(st.open_before->0)
        && st.open_after is None && st.rows_after == st.rows_before {
        let id = st.open_before->0;
        law_started_stopped_alternate(None, empty, empty, id, Seq::<char>::empty());
        let e = stopped_events(id);
        assert(e.drop_last().drop_last() =~= empty);
        assert(started_count(e.drop_last().drop_last()) == 0);
        assert(e.drop_last().last() == idle_status_view());
        assert(started_count(e.drop_last()) == 0);
        assert(e.last() == EventView::Stopped(id));
        assert(started_count(e) == 0);
    } else {
        lemma_statuses_keep_open(st.open_before, st.events);
    }
}

/// Over a whole run that begins with no recording open, started and stopped
/// events alternate with matching ids: each `Stopped(id)` closes the
/// recording that the last `Started(id)` opened, and the run ends with the
/// recording it leaves open.  Every start stored exactly one new row, so
/// the table holds as many more rows as starts were announced.
pub proof fn law_run_events_alternate(steps: Seq<RunStep>)
    requires
        steps.len() > 0,
        run_ok(steps),
        steps[0].open_before is None,
        steps[0].rows_before.finite(),
    ensures
        lifecycle(None, run_events(steps)) == Some(steps.last().open_after),
        steps.last().rows_after.finite(),
        steps.last().rows_after.len() == steps[0].rows_before.len() + started_count(
            run_events(steps),
        ),
    decreases steps.len(),
{
    let last = steps.last();
    lemma_step_events(last);
    if steps.len() == 1 {
        assert(run_events(steps.drop_last()) =~= Seq::<EventView>::empty());
        assert(run_events(steps) =~= last.events);
    } else {
        let prefix = steps.drop_last();
        assert(prefix[0] == steps[0]);
        law_run_events_alternate(prefix);
        lemma_lifecycle_concat(None, run_events(prefix), last.events);
        lemma_started_count_concat(run_events(prefix), last.events);
    }
}

/// A start, as `start_recording`, `start_manual` and `on_activity` state
/// it, is a step of a run: with no recording open, it either opens the new
/// recording, stores its row and announces it, or changes nothing.
pub proof fn law_start_is_run_step(
    started: Option<InProgress>,
    before: Map<Seq<char>, crate::db::RowView>,
    after: Map<Seq<char>, crate::db::RowView>,
    events_before: Seq<RecorderEvent>,
    events_after: Seq<RecorderEvent>,
    announced: Seq<EventView>,
)
    requires
        start_outcome(started, before, after),
        start_announced(started, events_before, events_after),
        events_view(events_after) == events_view(events_before) + announced,
    ensures
        step_ok(
            RunStep {
                open_before: None,
                events: announced,
                rows_before: before.dom(),
                rows_after: after.dom(),
                open_after: match started {
                    Some(ip) => Some(ip.id@),
                    None => None,
                },
            },
        ),
{
    match started {
        Some(ip) => {
            let a = events_view(events_before);
            assert(announced =~= (a + announced).subrange(a.len() as int, (a + announced).len() as int));
            assert(started_events(ip.id@) =~= (a + started_events(ip.id@)).subrange(
                a.len() as int,
                (a + started_events(ip.id@)).len() as int,
            ));
            assert(after.dom() =~= before.dom().insert(ip.id@));
        },
        None => {
            assert(announced.len() == 0);
            assert(only_statuses(announced));
        },
    }
}

/// Finishing the open recording, as `finish_recording` states it, is a step
/// of a run: it closes that recording and announces it, and the ids stored
/// stay as they were whether or not storing succeeded.
pub proof fn law_finish_is_run_step(
    id: Seq<char>,
    before: Map<Seq<char>, crate::db::RowView>,
    after: Map<Seq<char>, crate::db::RowView>,
    ended_at: Seq<char>,
    transcript: Seq<char>,
    summary: Option<Seq<char>>,
    now: Seq<char>,
    events_before: Seq<RecorderEvent>,
    events_after: Seq<RecorderEvent>,
    announced: Seq<EventView>,
)
    requires
        after == finalized(before, id, ended_at, transcript, summary, now) || after == before,
        events_view(events_after) == events_view(events_before) + stopped_events(id),
        events_view(events_after) == events_view(events_before) + announced,
    ensures
        step_ok(
            RunStep {
                open_before: Some(id),
                events: announced,
                rows_before: before.dom(),
                rows_after: after.dom(),
                open_after: None,
            },
        ),
{
    let a = events_view(events_before);
    assert(announced =~= (a + announced).subrange(a.len() as int, (a + announced).len() as int));
    assert(stopped_events(id) =~= (a + stopped_events(id)).subrange(
        a.len() as int,
        (a + stopped_events(id)).len() as int,
    ));
    if before.dom().contains(id) && after != before {
        assert(after.dom() =~= before.dom());
    }
}

/// A transcribed segment, as `on_segment_text` states it, is a step of a
/// run that opens and closes nothing: it announces at most a status.
pub proof fn law_segment_is_run_step(
    open: Option<Seq<char>>,
    in_progress: Option<InProgress>,
    text: Option<String>,
    rows: Set<Seq<char>>,
    events_before: Seq<RecorderEvent>,
    events_after: Seq<RecorderEvent>,
    announced: Seq<EventView>,
)
    requires
        segment_announced(in_progress, text, events_before, events_after),
        events_view(events_after) == events_view(events_before) + announced,
    ensures
        step_ok(
            RunStep {
                open_before: open,
                events: announced,
                rows_before: rows,
                rows_after: rows,
                open_after: open,
            },
        ),
{
    let a = events_view(events_before);
    assert(announced =~= (a + announced).subrange(a.len() as int, (a + announced).len() as int));
    assert forall|i: int| 0 <= i < announced.len() implies #[trigger] announced[i] is Status by {
        assert(events_view(events_after)[a.len() + i] == announced[i]);
    }
}

} // verus!
