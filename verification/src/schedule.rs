//! When the background task looks at the accounts.
use crate::account::AppSettings;
use crate::amount::{double_value, equal, one_credit, Amount};
use vstd::prelude::*;

verus! {

/// The minutes between two checks where the settings name none.
pub const DEFAULT_INTERVAL: i32 = 5;

/// The seconds until the settings are read again while the switch is off. They are few, so
/// that turning it on takes effect soon.
pub const DISABLED_POLL_SECS: u64 = 15;

/// The seconds until the settings are read again after they could not be read.
pub const RETRY_SECS: u64 = 300;

/// The failures in a row after which the task gives up.
pub const MAX_RETRIES: u32 = 3;

/// The automatic switch is on.
pub open spec fn is_on(settings: AppSettings) -> bool {
    settings.auto_switch_enabled == Some(true)
}

/// The amount at or below which the current account is given up.
pub open spec fn threshold_of(settings: AppSettings) -> Amount {
    match settings.auto_switch_threshold {
        Some(threshold) => threshold,
        None => one_credit(),
    }
}

/// The minutes between two checks.
pub open spec fn interval_of(settings: AppSettings) -> i32 {
    match settings.auto_switch_interval {
        Some(minutes) => minutes,
        None => DEFAULT_INTERVAL,
    }
}

/// What the checks run by.
#[derive(Clone, Copy)]
pub struct Schedule {
    pub threshold: Amount,
    pub interval_minutes: i32,
}

/// The schedule that the settings ask for.
pub open spec fn schedule_of(settings: AppSettings) -> Schedule {
    Schedule { threshold: threshold_of(settings), interval_minutes: interval_of(settings) }
}

/// The two schedules are the same. One without a number as its threshold is not even the
/// same as itself.
pub open spec fn same_schedule(a: Schedule, b: Schedule) -> bool {
    equal(a.threshold.value(), b.threshold.value()) && a.interval_minutes == b.interval_minutes
}

/// What the task does before it reads the settings again.
pub enum TaskAction {
    /// Nothing more: the task ends.
    Stop,
    /// Sleep for some seconds.
    Sleep(u64),
    /// Start a timer with this period in seconds, check at once with this threshold, and
    /// wait for the timer.
    Start(u64, Amount),
    /// Check with this threshold, and wait for the timer.
    Check(Amount),
    /// Drop the timer.
    Restart,
}

/// The background task.
pub struct AutoSwitchTask {
    retry_count: u32,
    running: Option<Schedule>,
}

/// The failures in a row to read the settings, and what the timer runs by, if it runs.
pub struct TaskView {
    pub failures: int,
    pub running: Option<Schedule>,
}

impl View for AutoSwitchTask {
    type V = TaskView;

    closed spec fn view(&self) -> TaskView {
        TaskView { failures: self.retry_count as int, running: self.running }
    }
}

/// A task that has not read the settings yet.
pub open spec fn fresh_task() -> TaskView {
    TaskView { failures: 0, running: None }
}

/// What the task makes of the settings; `None` stands for settings that could not be read.
pub open spec fn task_step(state: TaskView, reading: Option<AppSettings>) -> (
    TaskView,
    TaskAction,
) {
    match state.running {
        None => match reading {
            None => if state.failures + 1 >= MAX_RETRIES {
                (TaskView { failures: state.failures + 1, ..state }, TaskAction::Stop)
            } else {
                (
                    TaskView { failures: state.failures + 1, ..state },
                    TaskAction::Sleep(RETRY_SECS),
                )
            },
            Some(settings) => if is_on(settings) {
                (
                    TaskView { failures: 0, running: Some(schedule_of(settings)) },
                    TaskAction::Start(
                        (interval_of(settings) * 60) as u64,
                        threshold_of(settings),
                    ),
                )
            } else {
                (fresh_task(), TaskAction::Sleep(DISABLED_POLL_SECS))
            },
        },
        Some(schedule) => if reading is Some && is_on(reading->0) && same_schedule(
            schedule_of(reading->0),
            schedule,
        ) {
            (state, TaskAction::Check(schedule.threshold))
        } else {
            (TaskView { running: None, ..state }, TaskAction::Restart)
        },
    }
}

/// A timer can be started by the settings: it runs by a positive number of minutes.
pub open spec fn can_start(state: TaskView, reading: Option<AppSettings>) -> bool {
    state.running is None && reading is Some && is_on(reading->0) ==> interval_of(reading->0) > 0
}

fn read_schedule(settings: &AppSettings) -> (r: Schedule)
    ensures
        r == schedule_of(*settings),
{
    Schedule {
        threshold: match settings.auto_switch_threshold {
            Some(threshold) => threshold,
            None => Amount::one(),
        },
        interval_minutes: match settings.auto_switch_interval {
            Some(minutes) => minutes,
            None => DEFAULT_INTERVAL,
        },
    }
}

fn switched_on(settings: &AppSettings) -> (r: bool)
    ensures
        r == is_on(*settings),
{
    match settings.auto_switch_enabled {
        Some(on) => on,
        None => false,
    }
}

impl AutoSwitchTask {
    /// A task that has not read the settings yet.
    pub fn new() -> (r: AutoSwitchTask)
        ensures
            r@ == fresh_task(),
    {
        AutoSwitchTask { retry_count: 0, running: None }
    }

    /// The failures in a row to read the settings.
    pub fn failures(&self) -> (r: u32)
        ensures
            r == self@.failures,
    {
        self.retry_count
    }

    /// Whether the settings, if they ask for a timer to be started, ask for one that can be.
    pub fn can_take(&self, reading: Option<AppSettings>) -> (r: bool)
        ensures
            r == can_start(self@, reading),
    {
        match reading {
            Some(settings) => self.running.is_some() || !switched_on(&settings) || read_schedule(
                &settings,
            ).interval_minutes > 0,
            None => true,
        }
    }

    /// Takes the settings, or that they could not be read, and gives what is to be done
    /// before they are read again. A task that has stopped takes none.
    pub fn step(&mut self, reading: Option<AppSettings>) -> (r: TaskAction)
        requires
            old(self)@.failures < MAX_RETRIES,
            can_start(old(self)@, reading),
        ensures
            (final(self)@, r) == task_step(old(self)@, reading),
    {
        match self.running {
            None => match reading {
                None => {
                    self.retry_count = self.retry_count + 1;
                    if self.retry_count >= MAX_RETRIES {
                        TaskAction::Stop
                    } else {
                        TaskAction::Sleep(RETRY_SECS)
                    }
                },
                Some(settings) => {
                    self.retry_count = 0;
                    if !switched_on(&settings) {
                        return TaskAction::Sleep(DISABLED_POLL_SECS);
                    }
                    let schedule = read_schedule(&settings);
                    self.running = Some(schedule);
                    TaskAction::Start(
                        (schedule.interval_minutes as u64) * 60,
                        schedule.threshold,
                    )
                },
            },
            Some(schedule) => {
                if let Some(settings) = reading {
                    if switched_on(&settings) {
                        let current = read_schedule(&settings);
                        if current.threshold.same(schedule.threshold) && current.interval_minutes
                            == schedule.interval_minutes {
                            return TaskAction::Check(schedule.threshold);
                        }
                    }
                }
                self.running = None;
                TaskAction::Restart
            },
        }
    }
}

/// The task from `state` on, after it has taken all of `readings`.
pub open spec fn task_after(state: TaskView, readings: Seq<Option<AppSettings>>) -> TaskView
    decreases readings.len(),
{
    if readings.len() == 0 {
        state
    } else {
        task_step(task_after(state, readings.drop_last()), readings.last()).0
    }
}

/// A task that goes on has failed fewer than three times in a row, and one whose timer
/// runs has not failed since it read the settings.
pub open spec fn task_goes_on(state: TaskView) -> bool {
    &&& 0 <= state.failures < MAX_RETRIES
    &&& state.running is Some ==> state.failures == 0
}

/// The task goes on after a step exactly when the step does not stop it; and it stops
/// exactly on the third failure in a row to read the settings while no timer runs.
pub proof fn task_stops_on_the_third_failure(state: TaskView, reading: Option<AppSettings>)
    requires
        task_goes_on(state),
    ensures
        ({
            let (after, action) = task_step(state, reading);
            &&& action is Stop <==> reading is None && state.running is None && state.failures == 2
            &&& action is Stop <==> !task_goes_on(after)
            &&& reading is Some ==> after.failures == 0
        }),
{
}

/// The failures to read the settings since they were last read.
pub open spec fn trailing_failures(readings: Seq<Option<AppSettings>>) -> int
    decreases readings.len(),
{
    if readings.len() == 0 || readings.last() is Some {
        0
    } else {
        trailing_failures(readings.drop_last()) + 1
    }
}

/// Whatever a new task has read, it stops only when the settings could not be read three
/// times in a row, and at the latest when they could not be read four times in a row: the
/// failure that drops a timer does not count.
pub proof fn task_stops_after_failures_in_a_row(
    readings: Seq<Option<AppSettings>>,
    reading: Option<AppSettings>,
)
    ensures
        ({
            let failures = trailing_failures(readings.push(reading));
            let action = task_step(task_after(fresh_task(), readings), reading).1;
            &&& action is Stop ==> failures >= 3
            &&& failures >= 4 ==> action is Stop
        }),
{
    lemma_failures_count(readings);
    assert(readings.push(reading).drop_last() =~= readings);
}

proof fn lemma_failures_count(readings: Seq<Option<AppSettings>>)
    ensures
        ({
            let state = task_after(fresh_task(), readings);
            let failures = trailing_failures(readings);
            &&& state.running is Some ==> state.failures == 0 && failures == 0
            &&& failures - 1 <= state.failures <= failures
        }),
    decreases readings.len(),
{
    if readings.len() > 0 {
        lemma_failures_count(readings.drop_last());
    }
}

/// Accounts are checked only under settings, just read, that have the switch on, and with
/// the threshold that these settings ask for.
pub proof fn checks_follow_the_settings(state: TaskView, reading: Option<AppSettings>)
    ensures
        match task_step(state, reading).1 {
            TaskAction::Start(_, threshold) => {
                &&& reading is Some && is_on(reading->0)
                &&& threshold == threshold_of(reading->0)
            },
            TaskAction::Check(threshold) => {
                &&& reading is Some && is_on(reading->0)
                &&& equal(threshold.value(), threshold_of(reading->0).value())
            },
            _ => true,
        },
{
}

/// A change of the settings takes effect: a timer runs on only under settings that ask for
/// its schedule; under others it is dropped, and the settings that then have the switch on
/// start a timer by what they ask for.
pub proof fn changed_settings_restart_the_timer(state: TaskView, settings: AppSettings)
    requires
        state.running is Some,
        !is_on(settings) || !same_schedule(schedule_of(settings), state.running->0),
    ensures
        ({
            let (dropped, action) = task_step(state, Some(settings));
            let (next, then) = task_step(dropped, Some(settings));
            &&& action is Restart
            &&& is_on(settings) ==> then is Start && next.running == Some(schedule_of(settings))
            &&& !is_on(settings) ==> then == TaskAction::Sleep(DISABLED_POLL_SECS)
        }),
{
}

/// Without a timer: settings that cannot be read count as a failure, of which the third in a
/// row ends the task and each other one lets it wait for five minutes; settings that do not
/// have the switch on let it wait for fifteen seconds; settings that have it on start a
/// timer of as many minutes as they ask for, or of five, and a check with the threshold that
/// they ask for, or with one credit. Settings that can be read clear the failures.
pub proof fn task_without_a_timer_goes_by_the_settings(
    state: TaskView,
    reading: Option<AppSettings>,
)
    requires
        state.running is None,
        0 <= state.failures < 3,
        can_start(state, reading),
    ensures
        ({
            let (after, action) = task_step(state, reading);
            &&& reading is None ==> {
                &&& after.running is None
                &&& after.failures == state.failures + 1
                &&& action == (if state.failures == 2 {
                    TaskAction::Stop
                } else {
                    TaskAction::Sleep(300)
                })
            }
            &&& reading matches Some(settings) ==> {
                &&& after.failures == 0
                &&& settings.auto_switch_enabled != Some(true) ==> {
                    &&& after.running is None
                    &&& action == TaskAction::Sleep(15)
                }
                &&& settings.auto_switch_enabled == Some(true) ==> {
                    let minutes = after.running->0.interval_minutes;
                    let threshold = after.running->0.threshold;
                    &&& after.running is Some
                    &&& action is Start
                    &&& action->Start_0 == minutes * 60
                    &&& action->Start_1 == threshold
                    &&& settings.auto_switch_interval is Some ==> Some(minutes)
                        == settings.auto_switch_interval
                    &&& settings.auto_switch_interval is None ==> minutes == 5
                    &&& settings.auto_switch_threshold is Some ==> Some(threshold)
                        == settings.auto_switch_threshold
                    &&& settings.auto_switch_threshold is None ==> threshold.bits
                        == 0x3ff0_0000_0000_0000
                }
            }
        }),
{
}

/// With a timer: it runs on, with a check by the threshold that it was started with, exactly
/// when settings can be read that have the switch on, ask for as many minutes (five where
/// they name none), and ask for a threshold that is the same number (one credit where they
/// name none). Else the timer is dropped; and in either case no failure is counted.
pub proof fn task_with_a_timer_goes_by_the_settings(state: TaskView, reading: Option<AppSettings>)
    requires
        state.running is Some,
    ensures
        ({
            let (after, action) = task_step(state, reading);
            let running = state.running->0;
            let minutes = match reading->0.auto_switch_interval {
                Some(minutes) => minutes,
                None => 5,
            };
            let asked = match reading->0.auto_switch_threshold {
                Some(threshold) => threshold.value(),
                None => double_value(0x3ff0_0000_0000_0000),
            };
            let same = {
                &&& reading is Some
                &&& reading->0.auto_switch_enabled == Some(true)
                &&& minutes == running.interval_minutes
                &&& asked is Some
                &&& asked == running.threshold.value()
            };
            &&& after.failures == state.failures
            &&& same ==> after == state && action == TaskAction::Check(running.threshold)
            &&& !same ==> after.running is None && action is Restart
        }),
{
}

/// Settings can be taken unless they start a timer of no minutes, or of fewer than none.
pub proof fn only_a_new_timer_needs_minutes(
    task: AutoSwitchTask,
    reading: Option<AppSettings>,
    r: bool,
)
    requires
        call_ensures(AutoSwitchTask::can_take, (&task, reading), r),
    ensures
        task@.running is Some || reading is None ==> r,
        reading matches Some(settings) ==> {
            &&& settings.auto_switch_enabled != Some(true) ==> r
            &&& settings.auto_switch_interval is None ==> r
            &&& task@.running is None && settings.auto_switch_enabled == Some(true)
                && settings.auto_switch_interval is Some ==> r == (
            settings.auto_switch_interval->0 > 0)
        },
{
}

/// A new task has no timer and has not failed yet.
pub proof fn new_task_has_nothing_behind_it(r: AutoSwitchTask, failures: u32)
    requires
        call_ensures(AutoSwitchTask::new, (), r),
        call_ensures(AutoSwitchTask::failures, (&r,), failures),
    ensures
        r@.running is None,
        r@.failures == 0,
        failures == 0,
{
}

} // verus!
