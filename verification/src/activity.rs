//! Two-stream activity detection.
//!
//! A recording starts when both the microphone and the system audio have been
//! active for several consecutive analysis windows, and stops after both have
//! been quiet long enough.  Whether a stream is active in a window (its level
//! against the dBFS threshold) is decided by the caller; this module holds the
//! state machine that turns those per-window verdicts into start and stop
//! events.
use vstd::prelude::*;

verus! {

/// Window counts that control activity detection.
#[derive(Debug, Clone, Copy)]
pub struct ActivityConfig {
    /// How many consecutive windows both streams must be active before
    /// recording starts.
    pub min_active_windows: u32,
    /// How many consecutive windows both streams must be quiet before
    /// recording stops.
    pub min_idle_windows: u32,
}

impl ActivityConfig {
    /// The default counts: 3 one-second windows to start, 180 to stop.
    pub fn default_windows() -> (c: ActivityConfig)
        ensures
            c.min_active_windows == 3,
            c.min_idle_windows == 180,
    {
        ActivityConfig { min_active_windows: 3, min_idle_windows: 180 }
    }
}

/// The state of the activity detector.
#[derive(Debug, Clone, Copy, PartialEq, Eq, Structural)]
pub enum ActivityState {
    Idle,
    Starting { count: u32 },
    Active,
    Stopping { count: u32 },
}

/// Whether the detector counts as recording in a given state.
pub open spec fn state_is_active(s: ActivityState) -> bool {
    s is Active || s is Stopping
}

/// A state that the detector can be in: counters are at least one and leave
/// room for one more window.
pub open spec fn state_wf(s: ActivityState) -> bool {
    match s {
        ActivityState::Starting { count } => 1 <= count < u32::MAX,
        ActivityState::Stopping { count } => 1 <= count < u32::MAX,
        _ => true,
    }
}

/// Whether both streams were active in a window.
pub open spec fn both_active(mic_active: bool, sys_active: bool) -> bool {
    mic_active && sys_active
}

/// Whether both streams were quiet in a window.
pub open spec fn both_idle(mic_active: bool, sys_active: bool) -> bool {
    !mic_active && !sys_active
}

/// One analysis window: the next state and the reported transition
/// (`Some(true)` start, `Some(false)` stop, `None` no change).
///
/// Both streams active count toward a start; both streams quiet count toward
/// a stop, and any activity while stopping returns to `Active`.  A window
/// count of 1 or less starts (or stops) on the first qualifying window.
pub open spec fn step(config: ActivityConfig, s: ActivityState, mic_active: bool, sys_active: bool) -> (
    ActivityState,
    Option<bool>,
) {
    let active = both_active(mic_active, sys_active);
    let idle = both_idle(mic_active, sys_active);
    match s {
        ActivityState::Idle => {
            if active {
                if config.min_active_windows <= 1 {
                    (ActivityState::Active, Some(true))
                } else {
                    (ActivityState::Starting { count: 1 }, None)
                }
            } else {
                (ActivityState::Idle, None)
            }
        },
        ActivityState::Starting { count } => {
            if active {
                if count + 1 >= config.min_active_windows {
                    (ActivityState::Active, Some(true))
                } else {
                    (ActivityState::Starting { count: (count + 1) as u32 }, None)
                }
            } else {
                (ActivityState::Idle, None)
            }
        },
        ActivityState::Active => {
            if idle {
                if config.min_idle_windows <= 1 {
                    (ActivityState::Idle, Some(false))
                } else {
                    (ActivityState::Stopping { count: 1 }, None)
                }
            } else {
                (ActivityState::Active, None)
            }
        },
        ActivityState::Stopping { count } => {
            if idle {
                if count + 1 >= config.min_idle_windows {
                    (ActivityState::Idle, Some(false))
                } else {
                    (ActivityState::Stopping { count: (count + 1) as u32 }, None)
                }
            } else {
                (ActivityState::Active, None)
            }
        },
    }
}

/// The state reached from `s` after the windows `inputs` (each the pair of
/// per-stream verdicts, microphone first), with the configuration held fixed.
pub open spec fn run(config: ActivityConfig, s: ActivityState, inputs: Seq<(bool, bool)>) -> ActivityState
    decreases inputs.len(),
{
    if inputs.len() == 0 {
        s
    } else {
        step(config, run(config, s, inputs.drop_last()), inputs.last().0, inputs.last().1).0
    }
}

/// The starts (`true`) and stops (`false`) reported over the windows
/// `inputs`, in order.
pub open spec fn reports(config: ActivityConfig, s: ActivityState, inputs: Seq<(bool, bool)>) -> Seq<
    bool,
>
    decreases inputs.len(),
{
    if inputs.len() == 0 {
        Seq::empty()
    } else {
        let earlier = reports(config, s, inputs.drop_last());
        match step(
            config,
            run(config, s, inputs.drop_last()),
            inputs.last().0,
            inputs.last().1,
        ).1 {
            Some(b) => earlier.push(b),
            None => earlier,
        }
    }
}

/// The RMS state machine `Idle -> Starting -> Active -> Stopping -> Idle`.
pub struct ActivityDetector {
    config: ActivityConfig,
    state: ActivityState,
}

impl ActivityDetector {
    #[verifier::type_invariant]
    spec fn inv(self) -> bool {
        state_wf(self.state)
    }

    /// The current configuration.
    pub closed spec fn config_spec(self) -> ActivityConfig {
        self.config
    }

    /// The current state.
    pub closed spec fn state_spec(self) -> ActivityState {
        self.state
    }

    /// A detector in the `Idle` state.
    pub fn new(config: ActivityConfig) -> (d: ActivityDetector)
        ensures
            d.config_spec() == config,
            d.state_spec() == ActivityState::Idle,
    {
        ActivityDetector { config, state: ActivityState::Idle }
    }

    /// Feed one analysis window: whether the microphone and the system audio
    /// were each above the threshold.
    /// Returns `Some(true)` when recording should start, `Some(false)` when it
    /// should stop, `None` for no change.
    pub fn feed(&mut self, mic_active: bool, sys_active: bool) -> (r: Option<bool>)
        ensures
            final(self).config_spec() == old(self).config_spec(),
            (final(self).state_spec(), r) == step(
                old(self).config_spec(),
                old(self).state_spec(),
                mic_active,
                sys_active,
            ),
    {
        proof {
            use_type_invariant(&*self);
        }
        let both_active = mic_active && sys_active;
        let both_idle = !mic_active && !sys_active;
        match self.state {
            ActivityState::Idle => {
                if both_active {
                    if self.config.min_active_windows <= 1 {
                        self.state = ActivityState::Active;
                        Some(true)
                    } else {
                        self.state = ActivityState::Starting { count: 1 };
                        None
                    }
                } else {
                    None
                }
            },
            ActivityState::Starting { count } => {
                if both_active {
                    let next: u32 = count + 1;
                    if next >= self.config.min_active_windows {
                        self.state = ActivityState::Active;
                        Some(true)
                    } else {
                        self.state = ActivityState::Starting { count: next };
                        None
                    }
                } else {
                    self.state = ActivityState::Idle;
                    None
                }
            },
            ActivityState::Active => {
                if both_idle {
                    if self.config.min_idle_windows <= 1 {
                        self.state = ActivityState::Idle;
                        Some(false)
                    } else {
                        self.state = ActivityState::Stopping { count: 1 };
                        None
                    }
                } else {
                    None
                }
            },
            ActivityState::Stopping { count } => {
                if both_idle {
                    let next: u32 = count + 1;
                    if next >= self.config.min_idle_windows {
                        self.state = ActivityState::Idle;
                        Some(false)
                    } else {
                        self.state = ActivityState::Stopping { count: next };
                        None
                    }
                } else {
                    self.state = ActivityState::Active;
                    None
                }
            },
        }
    }

    /// Whether a recording is under way: `Active` or counting down in
    /// `Stopping`.
    pub fn is_active(&self) -> (b: bool)
        ensures
            b == state_is_active(self.state_spec()),
    {
        match self.state {
            ActivityState::Active | ActivityState::Stopping { .. } => true,
            _ => false,
        }
    }

    /// The current state.
    pub fn state(&self) -> (s: ActivityState)
        ensures
            s == self.state_spec(),
    {
        self.state
    }

    /// Replace the configuration; the state is kept.
    pub fn update_config(&mut self, config: ActivityConfig)
        ensures
            final(self).config_spec() == config,
            final(self).state_spec() == old(self).state_spec(),
    {
        proof {
            use_type_invariant(&*self);
        }
        self.config = config;
    }
}


/// The number of windows a start or a stop needs: the configured count, and
/// at least one.
pub open spec fn needed_windows(min_windows: u32) -> int {
    if min_windows < 1 { 1 } else { min_windows as int }
}

/// Every window reports exactly the change of `is_active`: `Some(true)` when
/// the detector becomes active, `Some(false)` when it stops being active, and
/// `None` when its activity stays as it was.
pub proof fn law_feed_reports_activity_change(
    config: ActivityConfig,
    s: ActivityState,
    mic_active: bool,
    sys_active: bool,
)
    requires
        state_wf(s),
    ensures
        ({
            let (s2, r) = step(config, s, mic_active, sys_active);
            &&& state_wf(s2)
            &&& (r == Some(true) <==> (!state_is_active(s) && state_is_active(s2)))
            &&& (r == Some(false) <==> (state_is_active(s) && !state_is_active(s2)))
            &&& (r is None <==> (state_is_active(s) == state_is_active(s2)))
        }),
{
}

/// A start is reported only on a window where both streams are active, and
/// a stop only on a window where both streams are quiet.
pub proof fn law_reports_need_both_streams(
    config: ActivityConfig,
    s: ActivityState,
    mic_active: bool,
    sys_active: bool,
)
    ensures
        step(config, s, mic_active, sys_active).1 == Some(true) ==> mic_active && sys_active,
        step(config, s, mic_active, sys_active).1 == Some(false) ==> !mic_active && !sys_active,
{
}

/// What the counters of a detector that started `Idle` record: `Starting
/// { count }` means the last `count` windows had both streams active, and
/// `Stopping { count }` means the last `count` windows had both quiet.
proof fn lemma_run_counts(config: ActivityConfig, inputs: Seq<(bool, bool)>)
    ensures
        state_wf(run(config, ActivityState::Idle, inputs)),
        run(config, ActivityState::Idle, inputs) matches ActivityState::Starting { count } ==> {
            &&& count <= inputs.len()
            &&& forall|j: int|
                inputs.len() - count <= j < inputs.len() ==> both_active(
                    #[trigger] inputs[j].0,
                    inputs[j].1,
                )
        },
        run(config, ActivityState::Idle, inputs) matches ActivityState::Stopping { count } ==> {
            &&& count <= inputs.len()
            &&& forall|j: int|
                inputs.len() - count <= j < inputs.len() ==> both_idle(
                    #[trigger] inputs[j].0,
                    inputs[j].1,
                )
        },
    decreases inputs.len(),
{
    if inputs.len() > 0 {
        let prefix = inputs.drop_last();
        lemma_run_counts(config, prefix);
        assert forall|j: int| 0 <= j < prefix.len() implies prefix[j] == inputs[j] by {}
    }
}

/// Recording never starts on a short burst: when a detector that started
/// `Idle` reports a start, the last `max(1, min_active_windows)` windows all
/// had both streams active.
pub proof fn law_start_needs_sustained_activity(config: ActivityConfig, inputs: Seq<(bool, bool)>)
    requires
        inputs.len() > 0,
        step(
            config,
            run(config, ActivityState::Idle, inputs.drop_last()),
            inputs.last().0,
            inputs.last().1,
        ).1 == Some(true),
    ensures
        inputs.len() >= needed_windows(config.min_active_windows),
        forall|j: int|
            inputs.len() - needed_windows(config.min_active_windows) <= j < inputs.len()
                ==> both_active(#[trigger] inputs[j].0, inputs[j].1),
{
    let prefix = inputs.drop_last();
    lemma_run_counts(config, prefix);
    assert forall|j: int| 0 <= j < prefix.len() implies prefix[j] == inputs[j] by {}
}

/// Recording never stops on a short pause: when a detector that started
/// `Idle` reports a stop, the last `max(1, min_idle_windows)` windows all had
/// both streams quiet.
pub proof fn law_stop_needs_sustained_quiet(config: ActivityConfig, inputs: Seq<(bool, bool)>)
    requires
        inputs.len() > 0,
        step(
            config,
            run(config, ActivityState::Idle, inputs.drop_last()),
            inputs.last().0,
            inputs.last().1,
        ).1 == Some(false),
    ensures
        inputs.len() >= needed_windows(config.min_idle_windows),
        forall|j: int|
            inputs.len() - needed_windows(config.min_idle_windows) <= j < inputs.len()
                ==> both_idle(#[trigger] inputs[j].0, inputs[j].1),
{
    let prefix = inputs.drop_last();
    lemma_run_counts(config, prefix);
    assert forall|j: int| 0 <= j < prefix.len() implies prefix[j] == inputs[j] by {}
}

/// Starts and stops alternate: a detector that started `Idle` reports a
/// start first, then a stop, then a start, and so on; it is active exactly
/// when it has reported one more start than stops.
pub proof fn law_reports_alternate(config: ActivityConfig, inputs: Seq<(bool, bool)>)
    ensures
        forall|i: int|
            0 <= i < reports(config, ActivityState::Idle, inputs).len() ==> #[trigger] reports(
                config,
                ActivityState::Idle,
                inputs,
            )[i] == (i % 2 == 0),
        state_is_active(run(config, ActivityState::Idle, inputs)) == (reports(
            config,
            ActivityState::Idle,
            inputs,
        ).len() % 2 == 1),
    decreases inputs.len(),
{
    if inputs.len() > 0 {
        let prefix = inputs.drop_last();
        law_reports_alternate(config, prefix);
        lemma_run_counts(config, prefix);
        law_feed_reports_activity_change(
            config,
            run(config, ActivityState::Idle, prefix),
            inputs.last().0,
            inputs.last().1,
        );
        let earlier = reports(config, ActivityState::Idle, prefix);
        let all = reports(config, ActivityState::Idle, inputs);
        assert forall|i: int| 0 <= i < all.len() implies #[trigger] all[i] == (i % 2 == 0) by {
            if i < earlier.len() {
                assert(all[i] == earlier[i]);
            }
        }
    }
}

/// Running two stretches of windows one after the other is running the
/// second from where the first ended, and the reports add up.
proof fn lemma_run_concat(
    config: ActivityConfig,
    s: ActivityState,
    a: Seq<(bool, bool)>,
    b: Seq<(bool, bool)>,
)
    ensures
        run(config, s, a + b) == run(config, run(config, s, a), b),
        reports(config, s, a + b) == reports(config, s, a) + reports(
            config,
            run(config, s, a),
            b,
        ),
    decreases b.len(),
{
    if b.len() == 0 {
        assert(a + b =~= a);
        assert(reports(config, s, a) + Seq::<bool>::empty() =~= reports(config, s, a));
    } else {
        lemma_run_concat(config, s, a, b.drop_last());
        assert((a + b).drop_last() =~= a + b.drop_last());
        assert((a + b).last() == b.last());
        let r1 = reports(config, s, a);
        let r2 = reports(config, run(config, s, a), b.drop_last());
        assert((r1 + r2).push(false) =~= r1 + r2.push(false));
        assert((r1 + r2).push(true) =~= r1 + r2.push(true));
    }
}

/// `k` windows in a row with both streams quiet.
pub open spec fn quiet_windows(k: nat) -> Seq<(bool, bool)> {
    Seq::new(k, |i: int| (false, false))
}

/// `k` windows in a row with both streams active.
pub open spec fn loud_windows(k: nat) -> Seq<(bool, bool)> {
    Seq::new(k, |i: int| (true, true))
}

proof fn lemma_quiet_from_active(config: ActivityConfig, k: nat)
    requires
        1 <= k <= needed_windows(config.min_idle_windows),
    ensures
        run(config, ActivityState::Active, quiet_windows(k)) == if k == needed_windows(
            config.min_idle_windows,
        ) {
            ActivityState::Idle
        } else {
            ActivityState::Stopping { count: k as u32 }
        },
        reports(config, ActivityState::Active, quiet_windows(k)) == if k == needed_windows(
            config.min_idle_windows,
        ) {
            seq![false]
        } else {
            Seq::<bool>::empty()
        },
    decreases k,
{
    let q = quiet_windows(k);
    assert(q.last() == (false, false));
    assert(Seq::<bool>::empty().push(false) =~= seq![false]);
    if k == 1 {
        assert(q.drop_last() =~= Seq::<(bool, bool)>::empty());
        assert(reports(config, ActivityState::Active, q.drop_last()) == Seq::<bool>::empty());
        assert(run(config, ActivityState::Active, q.drop_last()) == ActivityState::Active);
    } else {
        assert(q.drop_last() =~= quiet_windows((k - 1) as nat));
        lemma_quiet_from_active(config, (k - 1) as nat);
        assert(reports(config, ActivityState::Active, q.drop_last()) == Seq::<bool>::empty());
    }
}

proof fn lemma_loud_from_idle(config: ActivityConfig, k: nat)
    requires
        1 <= k <= needed_windows(config.min_active_windows),
    ensures
        run(config, ActivityState::Idle, loud_windows(k)) == if k == needed_windows(
            config.min_active_windows,
        ) {
            ActivityState::Active
        } else {
            ActivityState::Starting { count: k as u32 }
        },
        reports(config, ActivityState::Idle, loud_windows(k)) == if k == needed_windows(
            config.min_active_windows,
        ) {
            seq![true]
        } else {
            Seq::<bool>::empty()
        },
    decreases k,
{
    let q = loud_windows(k);
    assert(q.last() == (true, true));
    assert(Seq::<bool>::empty().push(true) =~= seq![true]);
    if k == 1 {
        assert(q.drop_last() =~= Seq::<(bool, bool)>::empty());
        assert(reports(config, ActivityState::Idle, q.drop_last()) == Seq::<bool>::empty());
        assert(run(config, ActivityState::Idle, q.drop_last()) == ActivityState::Idle);
    } else {
        assert(q.drop_last() =~= loud_windows((k - 1) as nat));
        lemma_loud_from_idle(config, (k - 1) as nat);
        assert(reports(config, ActivityState::Idle, q.drop_last()) == Seq::<bool>::empty());
    }
}

/// A recording stops exactly after the configured quiet stretch: once a
/// detector that started `Idle` is `Active`, each window with both streams
/// quiet moves the stop counter on by one, nothing is reported before the
/// `max(1, min_idle_windows)`-th such window, and that window reports the
/// stop and leaves the detector `Idle`.
pub proof fn law_stop_exactly_after_quiet_run(config: ActivityConfig, p: Seq<(bool, bool)>, k: nat)
    requires
        run(config, ActivityState::Idle, p) == ActivityState::Active,
        1 <= k <= needed_windows(config.min_idle_windows),
    ensures
        run(config, ActivityState::Idle, p + quiet_windows(k)) == if k == needed_windows(
            config.min_idle_windows,
        ) {
            ActivityState::Idle
        } else {
            ActivityState::Stopping { count: k as u32 }
        },
        reports(config, ActivityState::Idle, p + quiet_windows(k)) == reports(
            config,
            ActivityState::Idle,
            p,
        ) + if k == needed_windows(config.min_idle_windows) {
            seq![false]
        } else {
            Seq::<bool>::empty()
        },
{
    lemma_run_concat(config, ActivityState::Idle, p, quiet_windows(k));
    lemma_quiet_from_active(config, k);
}

/// A recording starts exactly after the configured active stretch: from
/// `Idle`, each window with both streams active moves the start counter on by
/// one, nothing is reported before the `max(1, min_active_windows)`-th such
/// window, and that window reports the start and leaves the detector
/// `Active`.
pub proof fn law_start_exactly_after_active_run(
    config: ActivityConfig,
    p: Seq<(bool, bool)>,
    k: nat,
)
    requires
        run(config, ActivityState::Idle, p) == ActivityState::Idle,
        1 <= k <= needed_windows(config.min_active_windows),
    ensures
        run(config, ActivityState::Idle, p + loud_windows(k)) == if k == needed_windows(
            config.min_active_windows,
        ) {
            ActivityState::Active
        } else {
            ActivityState::Starting { count: k as u32 }
        },
        reports(config, ActivityState::Idle, p + loud_windows(k)) == reports(
            config,
            ActivityState::Idle,
            p,
        ) + if k == needed_windows(config.min_active_windows) {
            seq![true]
        } else {
            Seq::<bool>::empty()
        },
{
    lemma_run_concat(config, ActivityState::Idle, p, loud_windows(k));
    lemma_loud_from_idle(config, k);
}

} // verus!
