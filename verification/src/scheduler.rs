//! The daily cycle: authenticate, fetch the day's plan, punch in, punch out,
//! wait for the next morning.
//!
//! The cycle is a state machine. Whoever drives it carries out each
//! [`Action`] (the network calls, the sleeping, the printing) and reports
//! back with an [`Event`] and a reading of the clock; [`step`] decides what
//! comes next. A target that has already passed is skipped, never punched
//! late.

use crate::jitter::jitter_bound;
use crate::punch::PunchType;
use crate::time::{LocalTime, TimeView};
use crate::workday_schedule::{reachable, within_jitter, ScheduleView, WorkdaySchedule};
use vstd::prelude::*;
use vstd::string::*;

verus! {

/// The hour of the local clock at which a new cycle starts.
pub const CYCLE_START_HOUR: u32 = 7;

/// Why the cycle cannot go on.
#[derive(Clone, Copy, Debug, PartialEq, Eq, Structural)]
pub enum HaltReason {
    /// Authentication failed.
    LoginFailed,
    /// The service has no plan for today.
    ScheduleMissing,
    /// Today is a work day, but a punch time cannot be computed: the plan
    /// lacks the start or the end of work, or a time is at the limit.
    ScheduleUnusable,
    /// The start of the next cycle cannot be placed on the local clock.
    NextCycleUnresolved,
    /// An event arrived that the state does not expect.
    UnexpectedEvent,
}

/// Where the cycle stands: what it is waiting for.
#[derive(Clone, Copy, Debug)]
pub enum CycleState {
    /// Nothing has happened yet.
    Start,
    /// A login is under way.
    Authenticating,
    /// Authenticated; the day's plan is being fetched.
    FetchingSchedule,
    /// The punch times are arranged; the punch-in is to be decided.
    PunchInPending { punch_in: LocalTime, punch_out: LocalTime },
    /// Sleeping until the punch-in.
    PunchInSleeping { punch_out: LocalTime },
    /// The punch-in is done or skipped; the punch-out is to be decided.
    PunchOutPending { punch_out: LocalTime },
    /// Sleeping until the punch-out.
    PunchOutSleeping,
    /// The day's punches are done or skipped, or the day is no work day.
    Settled,
    /// Sleeping until the next cycle.
    WaitForNextCycle,
    /// The cycle has ended for good.
    Halted,
}

/// What happened to the last action.
#[derive(Debug)]
pub enum Event {
    /// The login succeeded.
    LoginSucceeded,
    /// The login failed.
    LoginFailed,
    /// The service gave today's plan.
    ScheduleFound(WorkdaySchedule),
    /// The service gave no plan for today.
    ScheduleMissing,
    /// The punch was submitted and accepted.
    PunchAccepted,
    /// The punch was submitted and the submission failed.
    PunchRejected,
    /// The sleep is over, or the report is made.
    Completed,
}

/// What the driver is to do next.
#[derive(Debug)]
pub enum Action {
    /// Authenticate afresh.
    Login,
    /// Fetch the plan of today.
    FetchSchedule,
    /// Tell that the day with this date is no work day.
    ReportDayOff { date: String },
    /// Tell the punch times that were arranged.
    AnnouncePlan { punch_in: LocalTime, punch_out: LocalTime },
    /// Sleep until the given time.
    SleepUntil(LocalTime),
    /// Submit a punch.
    Punch(PunchType),
    /// Tell that a punch was skipped because its time has passed.
    ReportSkipped(PunchType),
    /// Stop.
    Halt(HaltReason),
}

impl Event {
    /// Whether the event says that an action without a result of its own has
    /// been carried out: a sleep, a report, or a punch whatever its outcome.
    pub open spec fn is_completion(self) -> bool {
        self is Completed || self is PunchAccepted || self is PunchRejected
    }
}

impl CycleState {
    /// How far into the cycle a state is.
    pub open spec fn rank(self) -> int {
        match self {
            CycleState::Start => 0,
            CycleState::Authenticating => 1,
            CycleState::FetchingSchedule => 2,
            CycleState::PunchInPending { .. } => 3,
            CycleState::PunchInSleeping { .. } => 4,
            CycleState::PunchOutPending { .. } => 5,
            CycleState::PunchOutSleeping => 6,
            CycleState::Settled => 7,
            CycleState::WaitForNextCycle => 8,
            CycleState::Halted => 9,
        }
    }
}

/// The cycle stops for `reason`.
pub open spec fn halts(next: CycleState, action: Action, reason: HaltReason) -> bool {
    next is Halted && action == Action::Halt(reason)
}

/// Whether `start` is where the next cycle begins as seen at `now`: seven
/// o'clock on the local calendar day after that of `now`.
pub open spec fn starts_next_cycle(now: TimeView, start: TimeView) -> bool {
    &&& start.in_range()
    &&& start.local_day() == now.local_day() + 1
    &&& start.second_of_day() == CYCLE_START_HOUR * 3_600
    &&& start.nanos == 0
    &&& start.offset - now.offset <= CYCLE_START_HOUR * 3_600 ==> now.precedes(start)
}

/// A plan has punch times only where it has both the start and the end of
/// work.
pub open spec fn can_arrange(schedule: ScheduleView) -> bool {
    schedule.work_on_time is Some && schedule.work_off_time is Some
}

/// Whether both punch times of a plan stay within the limit of
/// [`LocalTime`] whatever jitter is drawn.
pub open spec fn fits(schedule: ScheduleView) -> bool {
    &&& schedule.work_on_time matches Some(on)
    &&& schedule.work_off_time matches Some(off)
    &&& reachable(on, PunchType::PunchIn, jitter_bound(None))
    &&& reachable(off, PunchType::PunchOut, jitter_bound(None))
}

/// Whether the two punch times are arranged for the plan: the punch-in up to
/// a minute before the start of work, the punch-out up to a minute after its
/// end.
pub open spec fn arranged(schedule: ScheduleView, punch_in: TimeView, punch_out: TimeView) -> bool {
    &&& schedule.work_on_time matches Some(on)
    &&& schedule.work_off_time matches Some(off)
    &&& within_jitter(on, PunchType::PunchIn, jitter_bound(None), punch_in)
    &&& within_jitter(off, PunchType::PunchOut, jitter_bound(None), punch_out)
}

/// What may follow when today's plan arrives.
pub open spec fn follows_plan(schedule: ScheduleView, next: CycleState, action: Action) -> bool {
    if !schedule.is_work_day() {
        &&& next is Settled
        &&& action matches Action::ReportDayOff { date }
        &&& date@ == schedule.date
    } else if !can_arrange(schedule) {
        halts(next, action, HaltReason::ScheduleUnusable)
    } else {
        ||| {
            &&& next matches CycleState::PunchInPending { punch_in, punch_out }
            &&& arranged(schedule, punch_in@, punch_out@)
            &&& action == (Action::AnnouncePlan { punch_in, punch_out })
        }
        ||| {
            &&& halts(next, action, HaltReason::ScheduleUnusable)
            &&& !fits(schedule)
        }
    }
}

/// What follows when a punch is to be decided: sleep while its time is still
/// ahead, skip once it has come.
pub open spec fn follows_decision(
    punch_type: PunchType,
    target: LocalTime,
    now: TimeView,
    sleeping: CycleState,
    skipped: CycleState,
    next: CycleState,
    action: Action,
) -> bool {
    if now.precedes(target@) {
        next == sleeping && action == Action::SleepUntil(target)
    } else {
        next == skipped && action == Action::ReportSkipped(punch_type)
    }
}

/// What may follow when the day is settled: the sleep until the next cycle.
pub open spec fn follows_settled(now: TimeView, next: CycleState, action: Action) -> bool {
    ||| {
        &&& next is WaitForNextCycle
        &&& action matches Action::SleepUntil(start)
        &&& starts_next_cycle(now, start@)
    }
    ||| halts(next, action, HaltReason::NextCycleUnresolved)
}

/// The transitions of the cycle: whether, in `state` and on `event` at time
/// `now`, the cycle may go on to `next` with `action`.
///
/// All is decided by the three arguments but for two things: which punch
/// times are drawn within their windows, and where the machine's zone puts
/// seven o'clock of the next day.
pub open spec fn follows(
    state: CycleState,
    event: Event,
    now: TimeView,
    next: CycleState,
    action: Action,
) -> bool {
    match state {
        CycleState::Start | CycleState::WaitForNextCycle => if event.is_completion() {
            next is Authenticating && action is Login
        } else {
            halts(next, action, HaltReason::UnexpectedEvent)
        },
        CycleState::Authenticating => match event {
            Event::LoginSucceeded => next is FetchingSchedule && action is FetchSchedule,
            Event::LoginFailed => halts(next, action, HaltReason::LoginFailed),
            _ => halts(next, action, HaltReason::UnexpectedEvent),
        },
        CycleState::FetchingSchedule => match event {
            Event::ScheduleFound(schedule) => follows_plan(schedule@, next, action),
            Event::ScheduleMissing => halts(next, action, HaltReason::ScheduleMissing),
            _ => halts(next, action, HaltReason::UnexpectedEvent),
        },
        CycleState::PunchInPending { punch_in, punch_out } => if event.is_completion() {
            follows_decision(
                PunchType::PunchIn,
                punch_in,
                now,
                CycleState::PunchInSleeping { punch_out },
                CycleState::PunchOutPending { punch_out },
                next,
                action,
            )
        } else {
            halts(next, action, HaltReason::UnexpectedEvent)
        },
        CycleState::PunchInSleeping { punch_out } => if event.is_completion() {
            next == (CycleState::PunchOutPending { punch_out }) && action == Action::Punch(
                PunchType::PunchIn,
            )
        } else {
            halts(next, action, HaltReason::UnexpectedEvent)
        },
        CycleState::PunchOutPending { punch_out } => if event.is_completion() {
            follows_decision(
                PunchType::PunchOut,
                punch_out,
                now,
                CycleState::PunchOutSleeping,
                CycleState::Settled,
                next,
                action,
            )
        } else {
            halts(next, action, HaltReason::UnexpectedEvent)
        },
        CycleState::PunchOutSleeping => if event.is_completion() {
            next is Settled && action == Action::Punch(PunchType::PunchOut)
        } else {
            halts(next, action, HaltReason::UnexpectedEvent)
        },
        CycleState::Settled => if event.is_completion() {
            follows_settled(now, next, action)
        } else {
            halts(next, action, HaltReason::UnexpectedEvent)
        },
        CycleState::Halted => halts(next, action, HaltReason::UnexpectedEvent),
    }
}

/// Whether `state` is about to decide the punch of the given kind, due at
/// `target`.
pub open spec fn decides(state: CycleState, punch_type: PunchType, target: LocalTime) -> bool {
    match state {
        CycleState::PunchInPending { punch_in, .. } => punch_type == PunchType::PunchIn && target
            == punch_in,
        CycleState::PunchOutPending { punch_out } => punch_type == PunchType::PunchOut && target
            == punch_out,
        _ => false,
    }
}

/// Whether a state is the sleep before the punch of the given kind.
pub open spec fn sleeps_before(state: CycleState, punch_type: PunchType) -> bool {
    match punch_type {
        PunchType::PunchIn => state is PunchInSleeping,
        PunchType::PunchOut => state is PunchOutSleeping,
    }
}

/// A run of the cycle: `actions.len()` steps in a row, step `i` leading from
/// `states[i]` on `events[i]` at `times[i]` to `states[i + 1]` with
/// `actions[i]`.
pub open spec fn is_run(
    states: Seq<CycleState>,
    events: Seq<Event>,
    times: Seq<TimeView>,
    actions: Seq<Action>,
) -> bool {
    &&& states.len() == actions.len() + 1
    &&& events.len() == actions.len()
    &&& times.len() == actions.len()
    &&& forall|i: int|
        0 <= i < actions.len() ==> #[trigger] follows(
            states[i],
            events[i],
            times[i],
            states[i + 1],
            actions[i],
        )
}

/// Whether a run stays within one cycle: no step of it starts from the wait
/// for the next cycle.
pub open spec fn within_one_cycle(states: Seq<CycleState>) -> bool {
    forall|i: int| 0 <= i < states.len() - 1 ==> !((#[trigger] states[i]) is WaitForNextCycle)
}

/// A target that has passed is skipped: when a punch is to be decided and
/// its time is not ahead of the clock, the step reports the skip, submits
/// nothing and does not sleep, and the cycle moves past that punch.
pub proof fn lemma_past_target_is_skipped(
    state: CycleState,
    event: Event,
    now: TimeView,
    next: CycleState,
    action: Action,
    punch_type: PunchType,
    target: LocalTime,
)
    requires
        follows(state, event, now, next, action),
        event.is_completion(),
        decides(state, punch_type, target),
        !now.precedes(target@),
    ensures
        action == Action::ReportSkipped(punch_type),
        !(action is Punch),
        !(action is SleepUntil),
        !sleeps_before(next, punch_type),
        next.rank() > state.rank() + 1,
{
}

/// A target that is still ahead is waited for and then punched: the step
/// that decides the punch asks for a sleep until the target, and the step
/// after that sleep asks for the punch, whatever the clock then shows.
pub proof fn lemma_future_target_is_awaited_then_punched(
    state: CycleState,
    event: Event,
    now: TimeView,
    asleep: CycleState,
    first: Action,
    woke: Event,
    later: TimeView,
    next: CycleState,
    second: Action,
    punch_type: PunchType,
    target: LocalTime,
)
    requires
        follows(state, event, now, asleep, first),
        follows(asleep, woke, later, next, second),
        event.is_completion(),
        woke.is_completion(),
        decides(state, punch_type, target),
        now.precedes(target@),
    ensures
        first == Action::SleepUntil(target),
        sleeps_before(asleep, punch_type),
        second == Action::Punch(punch_type),
        !sleeps_before(next, punch_type),
        !decides(next, punch_type, target),
{
}

/// A punch is submitted only on waking from the sleep before it, and that
/// sleep is entered only when the punch was decided with its target ahead.
pub proof fn lemma_punch_only_after_its_sleep(
    state: CycleState,
    event: Event,
    now: TimeView,
    next: CycleState,
    action: Action,
    punch_type: PunchType,
)
    requires
        follows(state, event, now, next, action),
    ensures
        action == Action::Punch(punch_type) ==> sleeps_before(state, punch_type),
        sleeps_before(next, punch_type) ==> exists|target: LocalTime|
            decides(state, punch_type, target) && now.precedes(target@),
{
    if sleeps_before(next, punch_type) {
        match state {
            CycleState::PunchInPending { punch_in, .. } => {
                assert(decides(state, punch_type, punch_in) && now.precedes(punch_in@));
            },
            CycleState::PunchOutPending { punch_out } => {
                assert(decides(state, punch_type, punch_out) && now.precedes(punch_out@));
            },
            _ => {},
        }
    }
}

/// Whether a submission is accepted or fails decides nothing: the same
/// steps follow either way.
pub proof fn lemma_punch_outcome_decides_nothing(
    state: CycleState,
    now: TimeView,
    next: CycleState,
    action: Action,
)
    ensures
        follows(state, Event::PunchAccepted, now, next, action) <==> follows(
            state,
            Event::PunchRejected,
            now,
            next,
            action,
        ),
{
}

/// Each step takes the cycle further, until the wait for the next cycle
/// starts it anew; a halted cycle stays halted.
pub proof fn lemma_step_advances(
    state: CycleState,
    event: Event,
    now: TimeView,
    next: CycleState,
    action: Action,
)
    requires
        follows(state, event, now, next, action),
    ensures
        !(state is WaitForNextCycle) && !(state is Halted) ==> state.rank() < next.rank(),
        state is Halted ==> next is Halted && action is Halt,
        state is WaitForNextCycle ==> next is Authenticating || next is Halted,
{
}

/// Within one cycle the states of a run never go back.
pub proof fn lemma_run_advances(
    states: Seq<CycleState>,
    events: Seq<Event>,
    times: Seq<TimeView>,
    actions: Seq<Action>,
    i: int,
    j: int,
)
    requires
        is_run(states, events, times, actions),
        within_one_cycle(states),
        0 <= i <= j <= actions.len(),
    ensures
        states[i].rank() <= states[j].rank(),
        i < j && !(states[i] is Halted) ==> states[i].rank() < states[j].rank(),
    decreases j - i,
{
    if i < j {
        lemma_run_advances(states, events, times, actions, i, j - 1);
        let i = j - 1;
        assert(follows(states[i], events[i], times[i], states[i + 1], actions[i]));
        lemma_step_advances(states[i], events[i], times[i], states[j], actions[i]);
        assert(!(states[i] is WaitForNextCycle));
    }
}

/// Within one cycle a punch of either kind is submitted at most once.
pub proof fn lemma_at_most_one_punch(
    states: Seq<CycleState>,
    events: Seq<Event>,
    times: Seq<TimeView>,
    actions: Seq<Action>,
    punch_type: PunchType,
    i: int,
    j: int,
)
    requires
        is_run(states, events, times, actions),
        within_one_cycle(states),
        0 <= i < actions.len(),
        0 <= j < actions.len(),
        actions[i] == Action::Punch(punch_type),
        actions[j] == Action::Punch(punch_type),
    ensures
        i == j,
{
    assert(follows(states[i], events[i], times[i], states[i + 1], actions[i]));
    assert(follows(states[j], events[j], times[j], states[j + 1], actions[j]));
    lemma_punch_only_after_its_sleep(
        states[i],
        events[i],
        times[i],
        states[i + 1],
        actions[i],
        punch_type,
    );
    lemma_punch_only_after_its_sleep(
        states[j],
        events[j],
        times[j],
        states[j + 1],
        actions[j],
        punch_type,
    );
    if i < j {
        lemma_run_advances(states, events, times, actions, i, j);
    } else if j < i {
        lemma_run_advances(states, events, times, actions, j, i);
    }
}

/// Once a punch is skipped because its target has passed, no step of the
/// same cycle submits it: a run that starts by deciding a punch whose time
/// is not ahead reports the skip and holds no such punch.
pub proof fn lemma_skipped_punch_is_never_submitted(
    states: Seq<CycleState>,
    events: Seq<Event>,
    times: Seq<TimeView>,
    actions: Seq<Action>,
    punch_type: PunchType,
    target: LocalTime,
    k: int,
)
    requires
        is_run(states, events, times, actions),
        within_one_cycle(states),
        0 <= k < actions.len(),
        events[0].is_completion(),
        decides(states[0], punch_type, target),
        !times[0].precedes(target@),
    ensures
        actions[0] == Action::ReportSkipped(punch_type),
        actions[k] != Action::Punch(punch_type),
{
    assert(follows(states[0], events[0], times[0], states[0int + 1], actions[0]));
    lemma_past_target_is_skipped(
        states[0],
        events[0],
        times[0],
        states[1],
        actions[0],
        punch_type,
        target,
    );
    if k > 0 {
        assert(follows(states[k], events[k], times[k], states[k + 1], actions[k]));
        lemma_punch_only_after_its_sleep(
            states[k],
            events[k],
            times[k],
            states[k + 1],
            actions[k],
            punch_type,
        );
        lemma_run_advances(states, events, times, actions, 1, k);
    }
}

/// A day that is no work day sees no punch: a run that starts with the
/// arrival of such a plan tells that the day is off and submits nothing in
/// that cycle.
pub proof fn lemma_day_off_submits_nothing(
    states: Seq<CycleState>,
    events: Seq<Event>,
    times: Seq<TimeView>,
    actions: Seq<Action>,
    schedule: WorkdaySchedule,
    k: int,
)
    requires
        is_run(states, events, times, actions),
        within_one_cycle(states),
        0 <= k < actions.len(),
        states[0] is FetchingSchedule,
        events[0] == Event::ScheduleFound(schedule),
        !schedule@.is_work_day(),
    ensures
        actions[0] is ReportDayOff,
        !(actions[k] is Punch),
{
    assert(follows(states[0], events[0], times[0], states[0int + 1], actions[0]));
    if k > 0 {
        assert(follows(states[k], events[k], times[k], states[k + 1], actions[k]));
        lemma_run_advances(states, events, times, actions, 1, k);
        lemma_punch_only_after_its_sleep(
            states[k],
            events[k],
            times[k],
            states[k + 1],
            actions[k],
            PunchType::PunchIn,
        );
        lemma_punch_only_after_its_sleep(
            states[k],
            events[k],
            times[k],
            states[k + 1],
            actions[k],
            PunchType::PunchOut,
        );
    }
}

/// A punch whose target is ahead is submitted exactly once in its cycle: a
/// run that starts by deciding it, and in which the driver reports the end
/// of the sleep, asks for the sleep first, for the punch second, and for
/// that punch at no other step.
pub proof fn lemma_awaited_punch_is_submitted_once(
    states: Seq<CycleState>,
    events: Seq<Event>,
    times: Seq<TimeView>,
    actions: Seq<Action>,
    punch_type: PunchType,
    target: LocalTime,
    k: int,
)
    requires
        is_run(states, events, times, actions),
        within_one_cycle(states),
        actions.len() >= 2,
        0 <= k < actions.len(),
        events[0].is_completion(),
        events[1].is_completion(),
        decides(states[0], punch_type, target),
        times[0].precedes(target@),
    ensures
        actions[0] == Action::SleepUntil(target),
        actions[1] == Action::Punch(punch_type),
        actions[k] == Action::Punch(punch_type) <==> k == 1,
{
    assert(follows(states[0], events[0], times[0], states[0int + 1], actions[0]));
    assert(follows(states[1], events[1], times[1], states[1int + 1], actions[1]));
    lemma_future_target_is_awaited_then_punched(
        states[0],
        events[0],
        times[0],
        states[1],
        actions[0],
        events[1],
        times[1],
        states[2],
        actions[1],
        punch_type,
        target,
    );
    if actions[k] == Action::Punch(punch_type) {
        lemma_at_most_one_punch(states, events, times, actions, punch_type, k, 1);
    }
}

/// Whether the event says that an action without a result of its own has
/// been carried out.
fn is_completion(event: &Event) -> (completion: bool)
    ensures
        completion == event.is_completion(),
{
    match event {
        Event::Completed => true,
        Event::PunchAccepted => true,
        Event::PunchRejected => true,
        _ => false,
    }
}

/// Decides a punch: sleep until `target` while it is still ahead of `now`,
/// skip it once it has come.
pub fn decide_punch(
    punch_type: PunchType,
    target: LocalTime,
    now: &LocalTime,
    sleeping: CycleState,
    skipped: CycleState,
) -> (result: (CycleState, Action))
    ensures
        follows_decision(punch_type, target, now@, sleeping, skipped, result.0, result.1),
{
    if now.is_before(&target) {
        (sleeping, Action::SleepUntil(target))
    } else {
        (skipped, Action::ReportSkipped(punch_type))
    }
}

/// Where the next cycle starts as seen at `now`: seven o'clock on the next
/// local calendar day, whether `now` is before or after seven. `None` where
/// the local clock shows that reading twice or never, or where it is beyond
/// the limit of [`LocalTime`].
///
/// The start lies after `now` unless the zone's offset grew by more than
/// seven hours in between.
pub fn next_cycle_start(now: &LocalTime) -> (start: Option<LocalTime>)
    ensures
        start matches Some(t) ==> starts_next_cycle(now@, t@),
{
    LocalTime::next_day_at_hour(now, CYCLE_START_HOUR)
}

/// Arranges the two punch times of a work day, each with a fresh jitter of
/// up to a minute. `None` where the plan lacks the start or the end of work,
/// or where a punch time would be beyond the limit of [`LocalTime`].
pub fn arrange(schedule: &WorkdaySchedule) -> (times: Option<(LocalTime, LocalTime)>)
    ensures
        times matches Some(t) ==> arranged(schedule@, t.0@, t.1@),
        times is None ==> !fits(schedule@),
{
    let punch_in = match schedule.checked_punch_time_with_jitter(PunchType::PunchIn, None) {
        Some(t) => t,
        None => { return None; },
    };
    let punch_out = match schedule.checked_punch_time_with_jitter(PunchType::PunchOut, None) {
        Some(t) => t,
        None => { return None; },
    };
    Some((punch_in, punch_out))
}

/// One step of the cycle: from the state, the event that the last action
/// ended in and the current time to the next state and the next action.
pub fn step(state: CycleState, event: Event, now: LocalTime) -> (result: (CycleState, Action))
    ensures
        follows(state, event, now@, result.0, result.1),
{
    let unexpected = (CycleState::Halted, Action::Halt(HaltReason::UnexpectedEvent));
    match state {
        CycleState::Start | CycleState::WaitForNextCycle => {
            if is_completion(&event) {
                (CycleState::Authenticating, Action::Login)
            } else {
                unexpected
            }
        },
        CycleState::Authenticating => match event {
            Event::LoginSucceeded => (CycleState::FetchingSchedule, Action::FetchSchedule),
            Event::LoginFailed => (CycleState::Halted, Action::Halt(HaltReason::LoginFailed)),
            _ => unexpected,
        },
        CycleState::FetchingSchedule => match event {
            Event::ScheduleFound(schedule) => {
                if !schedule.is_work_day() {
                    let date = String::from_str(schedule.get_date());
                    (CycleState::Settled, Action::ReportDayOff { date })
                } else {
                    match arrange(&schedule) {
                        Some((punch_in, punch_out)) => (
                            CycleState::PunchInPending { punch_in, punch_out },
                            Action::AnnouncePlan { punch_in, punch_out },
                        ),
                        None => (
                            CycleState::Halted,
                            Action::Halt(HaltReason::ScheduleUnusable),
                        ),
                    }
                }
            },
            Event::ScheduleMissing => (
                CycleState::Halted,
                Action::Halt(HaltReason::ScheduleMissing),
            ),
            _ => unexpected,
        },
        CycleState::PunchInPending { punch_in, punch_out } => {
            if is_completion(&event) {
                decide_punch(
                    PunchType::PunchIn,
                    punch_in,
                    &now,
                    CycleState::PunchInSleeping { punch_out },
                    CycleState::PunchOutPending { punch_out },
                )
            } else {
                unexpected
            }
        },
        CycleState::PunchInSleeping { punch_out } => {
            if is_completion(&event) {
                (CycleState::PunchOutPending { punch_out }, Action::Punch(PunchType::PunchIn))
            } else {
                unexpected
            }
        },
        CycleState::PunchOutPending { punch_out } => {
            if is_completion(&event) {
                decide_punch(
                    PunchType::PunchOut,
                    punch_out,
                    &now,
                    CycleState::PunchOutSleeping,
                    CycleState::Settled,
                )
            } else {
                unexpected
            }
        },
        CycleState::PunchOutSleeping => {
            if is_completion(&event) {
                (CycleState::Settled, Action::Punch(PunchType::PunchOut))
            } else {
                unexpected
            }
        },
        CycleState::Settled => {
            if is_completion(&event) {
                match next_cycle_start(&now) {
                    Some(start) => (CycleState::WaitForNextCycle, Action::SleepUntil(start)),
                    None => (
                        CycleState::Halted,
                        Action::Halt(HaltReason::NextCycleUnresolved),
                    ),
                }
            } else {
                unexpected
            }
        },
        CycleState::Halted => unexpected,
    }
}

} // verus!
