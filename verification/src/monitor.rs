//! The companion-process monitor: the program runs beside another process and
//! stops once that process, having been seen running, is gone.

use sysinfo::SystemExt;
use vstd::prelude::*;

verus! {

/// The exit status with which the program ends when the companion disappears.
/// The disappearance is a designed way to stop, not a failure.
pub const EXIT_STATUS: i32 = 0;

/// The pause between two scans of the process table, in milliseconds.
pub const POLL_INTERVAL_MS: u64 = 1000;

/// The name by which the companion process is looked up.
pub const COMPANION_PROCESS: &'static str = "vrmonitor";

/// What the monitor has seen of the companion process so far.
#[derive(Clone, Copy, Debug, PartialEq, Eq, Structural)]
pub enum MonitorState {
    /// No scan has been made yet.
    Unobserved,
    /// The latest scan found the companion running.
    ObservedPresent,
    /// The companion was running and is gone.
    ObservedAbsent,
}

/// What the monitor asks for after a scan.
#[derive(Clone, Copy, Debug, PartialEq, Eq, Structural)]
pub enum MonitorAction {
    /// Scan again after the pause.
    ScanAgain { after_millis: u64 },
    /// The companion was never running: end the monitor and leave the program
    /// running.
    StopQuietly,
    /// The companion has disappeared: end the whole program with this status.
    Terminate { status: i32 },
}

/// The monitor's transition on a scan that found the companion (`present`) or
/// did not.
pub open spec fn observe_spec(state: MonitorState, present: bool) -> (MonitorState, MonitorAction) {
    match state {
        MonitorState::Unobserved => if present {
            (MonitorState::ObservedPresent, MonitorAction::ScanAgain { after_millis: POLL_INTERVAL_MS })
        } else {
            (MonitorState::Unobserved, MonitorAction::StopQuietly)
        },
        MonitorState::ObservedPresent => if present {
            (MonitorState::ObservedPresent, MonitorAction::ScanAgain { after_millis: POLL_INTERVAL_MS })
        } else {
            (MonitorState::ObservedAbsent, MonitorAction::Terminate { status: EXIT_STATUS })
        },
        MonitorState::ObservedAbsent => (
            MonitorState::ObservedAbsent,
            MonitorAction::Terminate { status: EXIT_STATUS },
        ),
    }
}

/// How the monitor stands after a series of scans.
pub enum MonitorVerdict {
    /// The monitor goes on scanning, in this state.
    Watching(MonitorState),
    /// The monitor has ended; the program runs on.
    StoppedQuietly,
    /// The monitor has ended the program with this status.
    Terminated(i32),
}

/// Runs the monitor from `state` over successive scans, each of which found the
/// companion or did not, up to the first scan that ends the monitor.
pub open spec fn monitor_run(state: MonitorState, scans: Seq<bool>) -> MonitorVerdict
    decreases scans.len(),
{
    if scans.len() == 0 {
        MonitorVerdict::Watching(state)
    } else {
        let (next, action) = observe_spec(state, scans[0]);
        match action {
            MonitorAction::ScanAgain { .. } => monitor_run(next, scans.skip(1)),
            MonitorAction::StopQuietly => MonitorVerdict::StoppedQuietly,
            MonitorAction::Terminate { status } => MonitorVerdict::Terminated(status),
        }
    }
}

/// Advances the monitor by the result of one scan.
pub fn observe(state: MonitorState, present: bool) -> (stepped: (MonitorState, MonitorAction))
    ensures
        stepped == observe_spec(state, present),
{
    match state {
        MonitorState::Unobserved => if present {
            (MonitorState::ObservedPresent, MonitorAction::ScanAgain { after_millis: POLL_INTERVAL_MS })
        } else {
            (MonitorState::Unobserved, MonitorAction::StopQuietly)
        },
        MonitorState::ObservedPresent => if present {
            (MonitorState::ObservedPresent, MonitorAction::ScanAgain { after_millis: POLL_INTERVAL_MS })
        } else {
            (MonitorState::ObservedAbsent, MonitorAction::Terminate { status: EXIT_STATUS })
        },
        MonitorState::ObservedAbsent => (
            MonitorState::ObservedAbsent,
            MonitorAction::Terminate { status: EXIT_STATUS },
        ),
    }
}

/// Loads the process table with `sysinfo::System::new_all` and counts what
/// `sysinfo::SystemExt::processes_by_name` yields for `name`: the processes
/// whose name contains it. The count is the machine's answer at the moment of
/// the call, so nothing is claimed of it.
#[verifier::external_body]
fn count_processes_named(name: &str) -> (count: usize) {
    sysinfo::System::new_all().processes_by_name(name).count()
}

/// Scans the process table for `process_name` and advances the monitor by what
/// the scan found: the companion counts as present when at least one process
/// carries the name.
pub fn scan(state: MonitorState, process_name: &str) -> (stepped: (MonitorState, MonitorAction))
    ensures
        stepped == observe_spec(state, true) || stepped == observe_spec(state, false),
{
    let count = count_processes_named(process_name);
    observe(state, count > 0)
}

/// Once the companion is known to be gone, every further scan ends the
/// program, whatever it finds.
pub proof fn absence_is_final(present: bool)
    ensures
        observe_spec(MonitorState::ObservedAbsent, present) == (
            MonitorState::ObservedAbsent,
            MonitorAction::Terminate { status: EXIT_STATUS },
        ),
{
}

/// While every scan finds the companion, the monitor goes on watching.
proof fn lemma_present_keeps_watching(state: MonitorState, scans: Seq<bool>)
    requires
        state != MonitorState::ObservedAbsent,
        scans.len() > 0,
        forall|i: int| 0 <= i < scans.len() ==> #[trigger] scans[i],
    ensures
        monitor_run(state, scans) == MonitorVerdict::Watching(MonitorState::ObservedPresent),
    decreases scans.len(),
{
    assert(scans[0]);
    let rest = scans.skip(1);
    if rest.len() > 0 {
        assert(forall|i: int| 0 <= i < rest.len() ==> #[trigger] rest[i] == scans[i + 1]);
        lemma_present_keeps_watching(MonitorState::ObservedPresent, rest);
    } else {
        assert(monitor_run(MonitorState::ObservedPresent, rest) == MonitorVerdict::Watching(
            MonitorState::ObservedPresent,
        ));
    }
}

/// From a state in which the companion was last seen present, the first scan
/// that misses it ends the program.
proof fn lemma_miss_terminates(scans: Seq<bool>, miss: int)
    requires
        0 <= miss < scans.len(),
        !scans[miss],
    ensures
        monitor_run(MonitorState::ObservedPresent, scans) == MonitorVerdict::Terminated(
            EXIT_STATUS,
        ),
    decreases scans.len(),
{
    if scans[0] {
        lemma_miss_terminates(scans.skip(1), miss - 1);
    }
}

/// A companion that is present at the first scan and absent at a later one
/// ends the program with status 0.
pub proof fn disappearance_terminates(scans: Seq<bool>, miss: int)
    requires
        0 < miss < scans.len(),
        scans[0],
        !scans[miss],
    ensures
        monitor_run(MonitorState::Unobserved, scans) == MonitorVerdict::Terminated(0),
{
    lemma_miss_terminates(scans.skip(1), miss - 1);
}

/// A companion that the first scan does not find was never running: the
/// monitor ends quietly and the program runs on, whatever later scans would
/// have found.
pub proof fn never_present_stops_quietly(scans: Seq<bool>)
    requires
        scans.len() > 0,
        !scans[0],
    ensures
        monitor_run(MonitorState::Unobserved, scans) == MonitorVerdict::StoppedQuietly,
{
}

/// While every scan finds the companion, the monitor keeps watching and the
/// program is not ended.
pub proof fn presence_keeps_watching(scans: Seq<bool>)
    requires
        scans.len() > 0,
        forall|i: int| 0 <= i < scans.len() ==> #[trigger] scans[i],
    ensures
        monitor_run(MonitorState::Unobserved, scans) == MonitorVerdict::Watching(
            MonitorState::ObservedPresent,
        ),
{
    lemma_present_keeps_watching(MonitorState::Unobserved, scans);
}

/// The monitor ends the program only after it has seen the companion running:
/// a run that terminates began with a scan that found it, and ends with
/// status 0.
pub proof fn termination_follows_presence(scans: Seq<bool>, status: i32)
    requires
        monitor_run(MonitorState::Unobserved, scans) == MonitorVerdict::Terminated(status),
    ensures
        scans.len() > 1,
        scans[0],
        exists|miss: int| 0 < miss < scans.len() && !scans[miss],
        status == EXIT_STATUS,
{
    assert(scans.len() > 0);
    assert(scans[0]);
    lemma_termination_has_miss(scans.skip(1), status);
    let miss = choose|miss: int| 0 <= miss < scans.skip(1).len() && !scans.skip(1)[miss];
    assert(!scans[miss + 1]);
}

/// A run that terminates from a state of presence holds a scan that missed the
/// companion.
proof fn lemma_termination_has_miss(scans: Seq<bool>, status: i32)
    requires
        monitor_run(MonitorState::ObservedPresent, scans) == MonitorVerdict::Terminated(status),
    ensures
        exists|miss: int| 0 <= miss < scans.len() && !scans[miss],
        status == EXIT_STATUS,
    decreases scans.len(),
{
    if scans.len() > 0 && scans[0] {
        lemma_termination_has_miss(scans.skip(1), status);
        let miss = choose|miss: int| 0 <= miss < scans.skip(1).len() && !scans.skip(1)[miss];
        assert(!scans[miss + 1]);
    } else {
        assert(scans.len() > 0);
        assert(!scans[0]);
    }
}

} // verus!
