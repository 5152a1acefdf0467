use vstd::prelude::*;

verus! {

/// Why a simulation run stopped.
#[derive(Clone, Copy, PartialEq, Eq, Structural, Debug)]
pub enum TerminationReason {
    /// The mission reported itself complete.
    MissionComplete,
    /// Simulated time reached the maximum duration.
    MaxDuration,
    /// The battery ran empty.
    BatteryEmpty,
}

/// The label recorded for each termination reason.
pub open spec fn spec_reason_label(r: TerminationReason) -> Seq<char> {
    match r {
        TerminationReason::MissionComplete => "mission_complete"@,
        TerminationReason::MaxDuration => "max_duration"@,
        TerminationReason::BatteryEmpty => "battery_empty"@,
    }
}

/// The checks made before each step, in order: mission first, then duration,
/// then battery; the first that holds ends the run.
pub open spec fn spec_check_termination(
    mission_complete: bool,
    duration_reached: bool,
    battery_empty: bool,
) -> Option<TerminationReason> {
    if mission_complete {
        Some(TerminationReason::MissionComplete)
    } else if duration_reached {
        Some(TerminationReason::MaxDuration)
    } else if battery_empty {
        Some(TerminationReason::BatteryEmpty)
    } else {
        None
    }
}

impl TerminationReason {
    /// Label stored in the run result and metadata.
    pub fn as_str(&self) -> (s: &'static str)
        ensures
            s@ == spec_reason_label(*self),
            *self == TerminationReason::MissionComplete ==> s@ == "mission_complete"@,
            *self == TerminationReason::MaxDuration ==> s@ == "max_duration"@,
            *self == TerminationReason::BatteryEmpty ==> s@ == "battery_empty"@,
    {
        match self {
            TerminationReason::MissionComplete => "mission_complete",
            TerminationReason::MaxDuration => "max_duration",
            TerminationReason::BatteryEmpty => "battery_empty",
        }
    }
}

/// Decide whether the run ends before the next step: the mission being
/// complete wins over the duration limit, which wins over an empty battery.
pub fn check_termination(mission_complete: bool, duration_reached: bool, battery_empty: bool) -> (r:
    Option<TerminationReason>)
    ensures
        r == spec_check_termination(mission_complete, duration_reached, battery_empty),
        mission_complete ==> r == Some(TerminationReason::MissionComplete),
        !mission_complete && duration_reached ==> r == Some(TerminationReason::MaxDuration),
        !mission_complete && !duration_reached && battery_empty ==> r == Some(
            TerminationReason::BatteryEmpty,
        ),
        !mission_complete && !duration_reached && !battery_empty ==> r is None,
{
    if mission_complete {
        Some(TerminationReason::MissionComplete)
    } else if duration_reached {
        Some(TerminationReason::MaxDuration)
    } else if battery_empty {
        Some(TerminationReason::BatteryEmpty)
    } else {
        None
    }
}

/// Record of one simulation run: the time and state series (the initial
/// entry plus one per step), the command and wind sample applied at each
/// step, and, once decided, why the run ended.
pub struct RunRecord<T, S, V> {
    times: Vec<T>,
    states: Vec<S>,
    commands: Vec<V>,
    winds: Vec<V>,
    outcome: Option<TerminationReason>,
    cleared: bool,
}

impl<T, S, V> RunRecord<T, S, V> {
    pub closed spec fn times_view(self) -> Seq<T> {
        self.times@
    }

    pub closed spec fn states_view(self) -> Seq<S> {
        self.states@
    }

    pub closed spec fn commands_view(self) -> Seq<V> {
        self.commands@
    }

    pub closed spec fn winds_view(self) -> Seq<V> {
        self.winds@
    }

    pub closed spec fn spec_outcome(self) -> Option<TerminationReason> {
        self.outcome
    }

    /// The last termination check found no reason to stop, and no step has
    /// been recorded since: exactly then may the next step be recorded.
    pub closed spec fn may_step(self) -> bool {
        self.cleared
    }

    pub open spec fn is_finished(self) -> bool {
        self.spec_outcome() is Some
    }

    /// The series stay aligned: one time per state, and one command and one
    /// wind sample per step, i.e. per state after the initial one. A run
    /// cleared for its next step has not ended.
    pub open spec fn wf(self) -> bool {
        &&& self.may_step() ==> !self.is_finished()
        &&& self.times_view().len() == self.states_view().len()
        &&& self.states_view().len() == self.commands_view().len() + 1
        &&& self.winds_view().len() == self.commands_view().len()
    }

    /// A run that starts from `initial_state` at `start_time` and has not
    /// taken any step.
    pub fn new(start_time: T, initial_state: S) -> (r: Self)
        ensures
            r.wf(),
            r.times_view() == seq![start_time],
            r.states_view() == seq![initial_state],
            r.commands_view() == Seq::<V>::empty(),
            r.winds_view() == Seq::<V>::empty(),
            r.spec_outcome() is None,
            !r.may_step(),
    {
        let mut times: Vec<T> = Vec::new();
        times.push(start_time);
        let mut states: Vec<S> = Vec::new();
        states.push(initial_state);
        RunRecord {
            times,
            states,
            commands: Vec::new(),
            winds: Vec::new(),
            outcome: None,
            cleared: false,
        }
    }

    /// Run the termination checks before the next step. Once a reason is
    /// found it is recorded and the run is over; the series are untouched.
    pub fn check(&mut self, mission_complete: bool, duration_reached: bool, battery_empty: bool) -> (r:
        Option<TerminationReason>)
        requires
            old(self).wf(),
            !old(self).is_finished(),
        ensures
            final(self).wf(),
            r == spec_check_termination(mission_complete, duration_reached, battery_empty),
            final(self).spec_outcome() == r,
            final(self).may_step() <==> r is None,
            final(self).times_view() == old(self).times_view(),
            final(self).states_view() == old(self).states_view(),
            final(self).commands_view() == old(self).commands_view(),
            final(self).winds_view() == old(self).winds_view(),
    {
        let r = check_termination(mission_complete, duration_reached, battery_empty);
        self.outcome = r;
        self.cleared = r.is_none();
        r
    }

    /// Append one integrated step of a run that is still going: the command
    /// and wind applied, and the time and state reached. Each step must be
    /// preceded by a termination check that found no reason to stop.
    pub fn record_step(&mut self, command: V, wind: V, time: T, state: S)
        requires
            old(self).wf(),
            old(self).may_step(),
        ensures
            final(self).wf(),
            !final(self).may_step(),
            !final(self).is_finished(),
            final(self).times_view() == old(self).times_view().push(time),
            final(self).states_view() == old(self).states_view().push(state),
            final(self).commands_view() == old(self).commands_view().push(command),
            final(self).winds_view() == old(self).winds_view().push(wind),
            final(self).spec_outcome() == old(self).spec_outcome(),
    {
        self.commands.push(command);
        self.winds.push(wind);
        self.times.push(time);
        self.states.push(state);
        self.cleared = false;
    }

    /// The recorded states so far, the initial one first.
    pub fn states(&self) -> (s: &Vec<S>)
        ensures
            s@ == self.states_view(),
    {
        &self.states
    }

    /// Number of recorded states: the run's `steps_run`.
    pub fn steps_run(&self) -> (n: usize)
        ensures
            n == self.states_view().len(),
    {
        self.states.len()
    }

    /// Why the run ended, once it has.
    pub fn outcome(&self) -> (r: Option<TerminationReason>)
        ensures
            r == self.spec_outcome(),
    {
        self.outcome
    }

    /// Hand out the series: times, states, commands and wind samples.
    pub fn into_series(self) -> (r: (Vec<T>, Vec<S>, Vec<V>, Vec<V>))
        ensures
            r.0@ == self.times_view(),
            r.1@ == self.states_view(),
            r.2@ == self.commands_view(),
            r.3@ == self.winds_view(),
    {
        (self.times, self.states, self.commands, self.winds)
    }
}

/// In every well-formed record, which `new` creates and `record_step` keeps,
/// there is at least the initial state, one time per state, and exactly one
/// command and one wind sample fewer than states.
pub proof fn lemma_aligned_series_lengths<T, S, V>(r: RunRecord<T, S, V>)
    requires
        r.wf(),
    ensures
        r.states_view().len() >= 1,
        r.times_view().len() == r.states_view().len(),
        r.commands_view().len() == r.states_view().len() - 1,
        r.winds_view().len() == r.states_view().len() - 1,
{
}

/// Whatever holds before the first step, a run whose mission is already
/// complete ends at once with that reason and records only the initial state.
pub proof fn lemma_complete_mission_stops_first(duration_reached: bool, battery_empty: bool)
    ensures
        spec_check_termination(true, duration_reached, battery_empty) == Some(
            TerminationReason::MissionComplete,
        ),
{
}

/// The run goes on exactly when none of the three checks holds.
pub proof fn lemma_continue_iff_no_check(m: bool, d: bool, b: bool)
    ensures
        spec_check_termination(m, d, b) is None <==> (!m && !d && !b),
{
}

/// Distinct reasons carry distinct labels, so the label recorded in the
/// metadata identifies the reason.
pub proof fn lemma_labels_distinct(a: TerminationReason, b: TerminationReason)
    requires
        a != b,
    ensures
        spec_reason_label(a) != spec_reason_label(b),
{
    reveal_strlit("mission_complete");
    reveal_strlit("max_duration");
    reveal_strlit("battery_empty");
    assert(spec_reason_label(a).len() != spec_reason_label(b).len());
}

} // verus!
