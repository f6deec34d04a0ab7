//! The daemon's lifecycle transition: finding a running daemon, stopping
//! it, first gracefully and then by force, and starting the new one.
//!
//! The library decides; the caller acts. [`step`] is a state machine: it
//! takes the state and what the caller observed, and returns the next
//! state and what the caller is to do next. The operating system owns the
//! daemon's process, so every decision rests on a fresh observation.
//!
//! Two installers that run at once are not kept apart: both may find and
//! stop the same daemon. Nothing here locks the PID file or the process.

use vstd::prelude::*;
use crate::text::{
    chars_of, decimal, decimal_round_trip, decimal_string, find_char, holds_word, is_digit,
    lemma_decimal_is_numeral, lemma_line_end_bounds, line_end, number_of, parse_number, scan_find,
    scan_line, scan_skip, scan_spaces, scan_strip_stop, scan_trim_stop, skip_char, skip_spaces,
    strip_stop, trim_stop, trimmed, window_holds,
};

verus! {

/// How many times the daemon is looked at, after the graceful request,
/// before it is killed.
pub const GRACE_POLLS: u32 = 10;

/// The pause in front of each look at the daemon, in milliseconds.
pub const POLL_INTERVAL_MS: u64 = 500;

/// Where the transition stands.
#[derive(Clone, Copy, Debug, PartialEq, Eq)]
pub enum State {
    /// Nothing is known yet.
    Idle,
    /// The PID file is being read.
    ReadingPidFile,
    /// The process that the PID file names is being looked at.
    ProbingRecorded { pid: u32 },
    /// Live processes are being searched by the daemon's name.
    SearchingByName,
    /// A running daemon was found and asked to terminate.
    Discovered { pid: u32 },
    /// The request was delivered; the daemon was seen alive `polls` times
    /// since.
    TermSent { pid: u32, polls: u32 },
    /// The grace window is over and forced termination was requested.
    Killing { pid: u32 },
    /// Forced termination was requested; one last look is under way.
    KillSent { pid: u32 },
    /// The old daemon is gone and the new one is being started.
    Stopped,
    /// The outcome was handed out.
    Finished,
}

/// Why a transition failed.
#[derive(Clone, Copy, Debug, PartialEq, Eq)]
pub enum Failure {
    /// The home directory is not known, so neither is the PID file.
    HomeUnknown,
    /// The request for graceful termination could not be delivered.
    GracefulRejected { pid: u32 },
    /// The daemon was still alive after forced termination.
    StillAlive { pid: u32 },
    /// The new daemon could not be spawned.
    SpawnFailed,
}

/// How a transition ended.
#[derive(Clone, Copy, Debug, PartialEq, Eq)]
pub enum Outcome {
    /// No daemon was running: nothing was stopped and nothing started.
    NotRunning,
    /// The old daemon was stopped and the new one started.
    Restarted,
    /// The daemon was found, but could not be stopped or replaced.
    Failed(Failure),
}

/// What the caller is to do next.
#[derive(Clone, Copy, Debug, PartialEq, Eq)]
pub enum Action {
    /// Read `<home>/.centy/daemon.pid` and report `PidFile`, or
    /// `HomeUnknown`.
    ReadPidFile,
    /// Report at once whether the process is alive, as `Liveness` or
    /// `TaskQuery`.
    QueryLiveness(u32),
    /// Search live processes for the daemon's executable name and report
    /// `ProcessList` or `TaskTable`.
    SearchByName,
    /// Ask the process to terminate and report `GracefulDelivered` or
    /// `GracefulRejected`.
    RequestGraceful(u32),
    /// Wait one poll interval, then report whether the process is alive,
    /// as `Liveness` or `TaskQuery`.
    WaitAndQuery(u32),
    /// Force the process to terminate and report `ForcedRequested`,
    /// whether or not the request succeeded.
    RequestForced(u32),
    /// Spawn the new executable, detached and without standard streams,
    /// and report `Spawned` or `SpawnFailed`.
    SpawnDetached,
    /// Stop: this is the outcome.
    Finish(Outcome),
}

/// What the caller observed.
#[derive(Debug)]
pub enum Event {
    /// The transition is to begin.
    Begin,
    /// The home directory could not be determined.
    HomeUnknown,
    /// The content of the PID file; `None` if it could not be read.
    PidFile(Option<String>),
    /// Whether the process that was asked about is alive.
    Liveness(bool),
    /// What a listing of the tasks with the PID that was asked about
    /// printed; `None` if the listing failed. The process is alive if the
    /// listing names its PID.
    TaskQuery(Option<String>),
    /// What a search by exact name printed, one PID on each line; `None`
    /// if the search failed or found nothing.
    ProcessList(Option<String>),
    /// What a listing of tasks by image name printed, one row of
    /// comma-separated quoted fields for each task, the PID second;
    /// `None` if the listing failed.
    TaskTable(Option<String>),
    /// The request for graceful termination was delivered.
    GracefulDelivered,
    /// The request for graceful termination could not be delivered.
    GracefulRejected,
    /// Forced termination was requested.
    ForcedRequested,
    /// The new daemon was spawned.
    Spawned,
    /// The new daemon could not be spawned.
    SpawnFailed,
}

/// The process ID that the characters of `s` from `from` up to `to`
/// spell: a positive numeral, white space around it aside.
pub open spec fn pid_in(s: Seq<char>, from: int, to: int) -> Option<u32> {
    match number_of(trimmed(s, from, to)) {
        Some(pid) => if pid > 0 {
            Some(pid)
        } else {
            None
        },
        None => None,
    }
}

/// The process ID that a PID file records.
pub open spec fn recorded_pid(text: Seq<char>) -> Option<u32> {
    pid_in(text, 0, text.len() as int)
}

/// The first process ID of a list with one PID on each line.
pub open spec fn listed_pid(text: Seq<char>) -> Option<u32> {
    let start = skip_spaces(text, 0, text.len() as int);
    pid_in(text, start, line_end(text, start))
}

/// The process ID in a row of a task table, the characters of `s` from
/// `from` up to `to`: the row names the daemon, and its second field,
/// quotes around it aside, is a positive numeral.
pub open spec fn row_pid(s: Seq<char>, from: int, to: int) -> Option<u32> {
    let comma = find_char(s, ',', from, to);
    if holds_word(s, "centy-daemon"@, from, to) && comma < to {
        let stop = find_char(s, ',', comma + 1, to);
        let start = skip_char(s, '"', comma + 1, stop);
        match number_of(s.subrange(start, strip_stop(s, '"', start, stop))) {
            Some(pid) => if pid > 0 {
                Some(pid)
            } else {
                None
            },
            None => None,
        }
    } else {
        None
    }
}

/// Where the row that begins at `from` ends: at the end of the line,
/// or in front of a carriage return that closes it with the line feed.
pub open spec fn row_end(s: Seq<char>, from: int) -> int {
    let end = line_end(s, from);
    if from < end < s.len() && s[end - 1] == '\r' {
        end - 1
    } else {
        end
    }
}

/// The process ID of the first row, from position `from` on, that has one.
pub open spec fn table_pid_from(s: Seq<char>, from: int) -> Option<u32>
    decreases s.len() + 1 - from,
{
    if 0 <= from < s.len() {
        proof {
            lemma_line_end_bounds(s, from);
        }
        match row_pid(s, from, row_end(s, from)) {
            Some(pid) => Some(pid),
            None => table_pid_from(s, line_end(s, from) + 1),
        }
    } else {
        None
    }
}

/// The process ID of the first row of a task table that has one.
pub open spec fn table_pid(text: Seq<char>) -> Option<u32> {
    table_pid_from(text, 0)
}

fn pid_in_window(s: &Vec<char>, from: usize, to: usize) -> (r: Option<u32>)
    requires
        from <= to <= s.len(),
    ensures
        r == pid_in(s@, from as int, to as int),
{
    let start = scan_spaces(s, from, to);
    let stop = scan_trim_stop(s, start, to);
    match parse_number(s, start, stop) {
        Some(pid) => if pid > 0 {
            Some(pid)
        } else {
            None
        },
        None => None,
    }
}

/// Reads the process ID that a PID file records. A file that holds
/// anything but a positive numeral records none.
pub fn parse_pid_file(text: &str) -> (r: Option<u32>)
    ensures
        r == recorded_pid(text@),
{
    let s = chars_of(text);
    pid_in_window(&s, 0, s.len())
}

/// Reads the first process ID of a list with one PID on each line.
pub fn parse_process_list(text: &str) -> (r: Option<u32>)
    ensures
        r == listed_pid(text@),
{
    let s = chars_of(text);
    let start = scan_spaces(&s, 0, s.len());
    let end = scan_line(&s, start);
    pid_in_window(&s, start, end)
}

fn row_pid_in(s: &Vec<char>, word: &Vec<char>, from: usize, to: usize) -> (r: Option<u32>)
    requires
        from <= to <= s.len(),
        word@ == "centy-daemon"@,
    ensures
        r == row_pid(s@, from as int, to as int),
{
    let comma = scan_find(s, ',', from, to);
    if !window_holds(s, word, from, to) || comma >= to {
        return None;
    }
    let stop = scan_find(s, ',', comma + 1, to);
    let start = scan_skip(s, '"', comma + 1, stop);
    let end = scan_strip_stop(s, '"', start, stop);
    match parse_number(s, start, end) {
        Some(pid) => if pid > 0 {
            Some(pid)
        } else {
            None
        },
        None => None,
    }
}

/// Reads the daemon's process ID from a task table: that of the first row
/// that names the daemon and holds a PID.
pub fn parse_task_table(text: &str) -> (r: Option<u32>)
    ensures
        r == table_pid(text@),
{
    let s = chars_of(text);
    let word = chars_of("centy-daemon");
    let mut from: usize = 0;
    while from < s.len()
        invariant
            s@ == text@,
            word@ == "centy-daemon"@,
            from <= s.len(),
            table_pid(s@) == table_pid_from(s@, from as int),
        decreases s.len() - from,
    {
        let end = scan_line(&s, from);
        let stop = if from < end && end < s.len() && s[end - 1] == '\r' {
            end - 1
        } else {
            end
        };
        match row_pid_in(&s, &word, from, stop) {
            Some(pid) => {
                return Some(pid);
            },
            None => {},
        }
        assert(table_pid_from(s@, s@.len() as int + 1) == table_pid_from(s@, s@.len() as int));
        from = if end < s.len() {
            end + 1
        } else {
            end
        };
    }
    None
}

/// What an event says of the life of the process `pid`: alive or dead,
/// or nothing, for an event of another kind. A task listing speaks for
/// the process if the PID's numeral stands in it.
pub open spec fn observed(event: Event, pid: u32) -> Option<bool> {
    match event {
        Event::Liveness(alive) => Some(alive),
        Event::TaskQuery(Some(text)) => Some(
            holds_word(text@, decimal(pid as nat), 0, text@.len() as int),
        ),
        Event::TaskQuery(None) => Some(false),
        _ => None,
    }
}

/// Where a search by name leads: to the daemon that it found, or to the
/// end, with nothing to do.
pub open spec fn after_search(found: Option<u32>) -> (State, Action) {
    match found {
        Some(pid) => (State::Discovered { pid }, Action::RequestGraceful(pid)),
        None => (State::Finished, Action::Finish(Outcome::NotRunning)),
    }
}

/// The transition table: the next state and the action for a state and an
/// event, `None` for an event that the state does not wait for.
///
/// Discovery takes the PID file first: a recorded PID counts only if its
/// process is alive. A missing, unreadable or stale record leads to the
/// search by name. Stopping begins with the graceful request; if that
/// cannot be delivered the transition fails at once. The daemon is then
/// looked at up to `GRACE_POLLS` times. As soon as it is seen dead the
/// new daemon is started. If it is alive at the last of these looks,
/// forced termination is requested, whose own success is not asked for,
/// and the daemon is looked at exactly once more.
pub open spec fn next(state: State, event: Event) -> Option<(State, Action)> {
    match (state, event) {
        (State::Idle, Event::Begin) => Some((State::ReadingPidFile, Action::ReadPidFile)),
        (State::ReadingPidFile, Event::HomeUnknown) => Some(
            (State::Finished, Action::Finish(Outcome::Failed(Failure::HomeUnknown))),
        ),
        (State::ReadingPidFile, Event::PidFile(Some(text))) => match recorded_pid(text@) {
            Some(pid) => Some((State::ProbingRecorded { pid }, Action::QueryLiveness(pid))),
            None => Some((State::SearchingByName, Action::SearchByName)),
        },
        (State::ReadingPidFile, Event::PidFile(None)) => Some(
            (State::SearchingByName, Action::SearchByName),
        ),
        (State::ProbingRecorded { pid }, _) => match observed(event, pid) {
            Some(alive) => if alive {
                Some((State::Discovered { pid }, Action::RequestGraceful(pid)))
            } else {
                Some((State::SearchingByName, Action::SearchByName))
            },
            None => None,
        },
        (State::SearchingByName, Event::ProcessList(Some(text))) => Some(
            after_search(listed_pid(text@)),
        ),
        (State::SearchingByName, Event::ProcessList(None)) => Some(after_search(None)),
        (State::SearchingByName, Event::TaskTable(Some(text))) => Some(
            after_search(table_pid(text@)),
        ),
        (State::SearchingByName, Event::TaskTable(None)) => Some(after_search(None)),
        (State::Discovered { pid }, Event::GracefulDelivered) => Some(
            (State::TermSent { pid, polls: 0 }, Action::WaitAndQuery(pid)),
        ),
        (State::Discovered { pid }, Event::GracefulRejected) => Some(
            (
                State::Finished,
                Action::Finish(Outcome::Failed(Failure::GracefulRejected { pid })),
            ),
        ),
        (State::TermSent { pid, polls }, _) => match observed(event, pid) {
            Some(alive) => if !alive {
                Some((State::Stopped, Action::SpawnDetached))
            } else if polls + 1 < GRACE_POLLS {
                Some(
                    (
                        State::TermSent { pid, polls: (polls + 1) as u32 },
                        Action::WaitAndQuery(pid),
                    ),
                )
            } else {
                Some((State::Killing { pid }, Action::RequestForced(pid)))
            },
            None => None,
        },
        (State::Killing { pid }, Event::ForcedRequested) => Some(
            (State::KillSent { pid }, Action::WaitAndQuery(pid)),
        ),
        (State::KillSent { pid }, _) => match observed(event, pid) {
            Some(alive) => if alive {
                Some(
                    (
                        State::Finished,
                        Action::Finish(Outcome::Failed(Failure::StillAlive { pid })),
                    ),
                )
            } else {
                Some((State::Stopped, Action::SpawnDetached))
            },
            None => None,
        },
        (State::Stopped, Event::Spawned) => Some(
            (State::Finished, Action::Finish(Outcome::Restarted)),
        ),
        (State::Stopped, Event::SpawnFailed) => Some(
            (State::Finished, Action::Finish(Outcome::Failed(Failure::SpawnFailed))),
        ),
        _ => None,
    }
}

fn search_result(found: Option<u32>) -> (r: (State, Action))
    ensures
        r == after_search(found),
{
    match found {
        Some(pid) => (State::Discovered { pid }, Action::RequestGraceful(pid)),
        None => (State::Finished, Action::Finish(Outcome::NotRunning)),
    }
}

fn observe(event: &Event, pid: u32) -> (r: Option<bool>)
    ensures
        r == observed(*event, pid),
{
    match event {
        Event::Liveness(alive) => Some(*alive),
        Event::TaskQuery(Some(text)) => {
            let listing = chars_of(text.as_str());
            let numeral = decimal_string(pid);
            let word = chars_of(numeral.as_str());
            Some(window_holds(&listing, &word, 0, listing.len()))
        },
        Event::TaskQuery(None) => Some(false),
        _ => None,
    }
}

/// Takes one step of the transition: from the state and what the caller
/// observed to the next state and what the caller is to do. Begin in
/// `State::Idle` with `Event::Begin`, carry out each action and report
/// what it gave, until the action is `Action::Finish`.
pub fn step(state: State, event: &Event) -> (r: Option<(State, Action)>)
    ensures
        r == next(state, *event),
{
    match state {
        State::Idle => match event {
            Event::Begin => Some((State::ReadingPidFile, Action::ReadPidFile)),
            _ => None,
        },
        State::ReadingPidFile => match event {
            Event::HomeUnknown => Some(
                (State::Finished, Action::Finish(Outcome::Failed(Failure::HomeUnknown))),
            ),
            Event::PidFile(Some(text)) => match parse_pid_file(text.as_str()) {
                Some(pid) => Some((State::ProbingRecorded { pid }, Action::QueryLiveness(pid))),
                None => Some((State::SearchingByName, Action::SearchByName)),
            },
            Event::PidFile(None) => Some((State::SearchingByName, Action::SearchByName)),
            _ => None,
        },
        State::ProbingRecorded { pid } => match observe(event, pid) {
            Some(alive) => if alive {
                Some((State::Discovered { pid }, Action::RequestGraceful(pid)))
            } else {
                Some((State::SearchingByName, Action::SearchByName))
            },
            None => None,
        },
        State::SearchingByName => match event {
            Event::ProcessList(Some(text)) => Some(
                search_result(parse_process_list(text.as_str())),
            ),
            Event::ProcessList(None) => Some(search_result(None)),
            Event::TaskTable(Some(text)) => Some(search_result(parse_task_table(text.as_str()))),
            Event::TaskTable(None) => Some(search_result(None)),
            _ => None,
        },
        State::Discovered { pid } => match event {
            Event::GracefulDelivered => Some(
                (State::TermSent { pid, polls: 0 }, Action::WaitAndQuery(pid)),
            ),
            Event::GracefulRejected => Some(
                (
                    State::Finished,
                    Action::Finish(Outcome::Failed(Failure::GracefulRejected { pid })),
                ),
            ),
            _ => None,
        },
        State::TermSent { pid, polls } => match observe(event, pid) {
            Some(alive) => if !alive {
                Some((State::Stopped, Action::SpawnDetached))
            } else if polls < GRACE_POLLS - 1 {
                Some((State::TermSent { pid, polls: polls + 1 }, Action::WaitAndQuery(pid)))
            } else {
                Some((State::Killing { pid }, Action::RequestForced(pid)))
            },
            None => None,
        },
        State::Killing { pid } => match event {
            Event::ForcedRequested => Some((State::KillSent { pid }, Action::WaitAndQuery(pid))),
            _ => None,
        },
        State::KillSent { pid } => match observe(event, pid) {
            Some(alive) => if alive {
                Some(
                    (
                        State::Finished,
                        Action::Finish(Outcome::Failed(Failure::StillAlive { pid })),
                    ),
                )
            } else {
                Some((State::Stopped, Action::SpawnDetached))
            },
            None => None,
        },
        State::Stopped => match event {
            Event::Spawned => Some((State::Finished, Action::Finish(Outcome::Restarted))),
            Event::SpawnFailed => Some(
                (State::Finished, Action::Finish(Outcome::Failed(Failure::SpawnFailed))),
            ),
            _ => None,
        },
        State::Finished => None,
    }
}

/// The message for a failure. `cause` is what the operating system said,
/// empty if it said nothing.
pub open spec fn failure_text(failure: Failure, cause: Seq<char>) -> Seq<char> {
    match failure {
        Failure::HomeUnknown => "could not determine home directory"@,
        Failure::GracefulRejected { pid } => if cause.len() == 0 {
            "failed to terminate daemon (PID "@ + decimal(pid as nat) + ")"@
        } else {
            "failed to terminate daemon (PID "@ + decimal(pid as nat) + ")"@ + ": "@ + cause
        },
        Failure::StillAlive { pid } => "failed to stop daemon after forced kill"@,
        Failure::SpawnFailed => "failed to start daemon: "@ + cause,
    }
}

/// Puts a failure in words.
pub fn failure_message(failure: Failure, cause: &str) -> (message: String)
    ensures
        message@ == failure_text(failure, cause@),
{
    match failure {
        Failure::HomeUnknown => String::from_str("could not determine home directory"),
        Failure::GracefulRejected { pid } => {
            let mut message = String::from_str("failed to terminate daemon (PID ");
            let number = decimal_string(pid);
            message.append(number.as_str());
            message.append(")");
            if !cause.is_empty() {
                message.append(": ");
                message.append(cause);
            }
            message
        },
        Failure::StillAlive { pid } => String::from_str("failed to stop daemon after forced kill"),
        Failure::SpawnFailed => {
            let mut message = String::from_str("failed to start daemon: ");
            message.append(cause);
            message
        },
    }
}

/// What the transition's outcome means to the pipeline: whether a daemon
/// was running and has been replaced, or why it could not be. That no
/// daemon was running is no error.
pub fn outcome_result(outcome: Outcome, cause: &str) -> (r: Result<bool, String>)
    ensures
        match outcome {
            Outcome::NotRunning => r == Ok::<bool, String>(false),
            Outcome::Restarted => r == Ok::<bool, String>(true),
            Outcome::Failed(failure) => r is Err && r->Err_0@ == failure_text(failure, cause@),
        },
{
    match outcome {
        Outcome::NotRunning => Ok(false),
        Outcome::Restarted => Ok(true),
        Outcome::Failed(failure) => Err(failure_message(failure, cause)),
    }
}

/// How many steps a state is from the end, at most.
pub open spec fn rank(state: State) -> nat {
    match state {
        State::Idle => 18,
        State::ReadingPidFile => 17,
        State::ProbingRecorded { pid } => 16,
        State::SearchingByName => 15,
        State::Discovered { pid } => 14,
        State::TermSent { pid, polls } => if polls < 9 {
            (13 - polls) as nat
        } else {
            4
        },
        State::Killing { pid } => 3,
        State::KillSent { pid } => 2,
        State::Stopped => 1,
        State::Finished => 0,
    }
}

/// Every step brings the transition nearer to its end: nothing is tried
/// again but the look at the daemon, and that a bounded number of times.
pub proof fn every_step_descends(state: State, event: Event)
    requires
        next(state, event) is Some,
    ensures
        rank(next(state, event)->Some_0.0) < rank(state),
{
}

/// The state reached and the actions asked for when `events` are
/// observed one after another from `state`; `None` if one of them comes
/// when the state does not wait for it.
pub open spec fn run(state: State, events: Seq<Event>) -> Option<(State, Seq<Action>)>
    decreases events.len(),
{
    if events.len() == 0 {
        Some((state, Seq::empty()))
    } else {
        match next(state, events.first()) {
            None => None,
            Some(stepped) => match run(stepped.0, events.drop_first()) {
                None => None,
                Some(rest) => Some((rest.0, seq![stepped.1] + rest.1)),
            },
        }
    }
}

/// How many of the actions request forced termination.
pub open spec fn forced_requests(actions: Seq<Action>) -> nat
    decreases actions.len(),
{
    if actions.len() == 0 {
        0
    } else if actions.first() is RequestForced {
        1 + forced_requests(actions.drop_first())
    } else {
        forced_requests(actions.drop_first())
    }
}

/// Whether forced termination may still be requested after `state`.
pub open spec fn may_force(state: State) -> bool {
    !(state is Killing || state is KillSent || state is Stopped || state is Finished)
}

proof fn lemma_forced_requests(state: State, events: Seq<Event>)
    requires
        run(state, events) is Some,
    ensures
        forced_requests(run(state, events)->Some_0.1) <= 1,
        !may_force(state) ==> forced_requests(run(state, events)->Some_0.1) == 0,
    decreases events.len(),
{
    if events.len() > 0 {
        let stepped = next(state, events.first())->Some_0;
        let rest = run(stepped.0, events.drop_first())->Some_0;
        lemma_forced_requests(stepped.0, events.drop_first());
        let actions = seq![stepped.1] + rest.1;
        assert(actions.first() == stepped.1);
        assert(actions.drop_first() =~= rest.1);
    }
}

/// Whatever is observed, and in whatever state the transition begins,
/// forced termination is requested at most once.
pub proof fn forced_termination_at_most_once(state: State, events: Seq<Event>)
    requires
        run(state, events) is Some,
    ensures
        forced_requests(run(state, events)->Some_0.1) <= 1,
{
    lemma_forced_requests(state, events);
}

/// No transition takes more steps than the rank of its first state.
pub proof fn runs_are_bounded(state: State, events: Seq<Event>)
    requires
        run(state, events) is Some,
    ensures
        events.len() <= rank(state),
    decreases events.len(),
{
    if events.len() > 0 {
        let stepped = next(state, events.first())->Some_0;
        every_step_descends(state, events.first());
        runs_are_bounded(stepped.0, events.drop_first());
    }
}

/// `count` observations of a live daemon.
pub open spec fn seen_alive(count: nat) -> Seq<Event> {
    Seq::new(count, |i: int| Event::Liveness(true))
}

/// `count` requests to wait and look at the process `pid`.
pub open spec fn waits(pid: u32, count: nat) -> Seq<Action> {
    Seq::new(count, |i: int| Action::WaitAndQuery(pid))
}

proof fn lemma_run_joined(state: State, first: Seq<Event>, second: Seq<Event>)
    requires
        run(state, first) is Some,
        run(run(state, first)->Some_0.0, second) is Some,
    ensures
        run(state, first + second) == Some(
            (
                run(run(state, first)->Some_0.0, second)->Some_0.0,
                run(state, first)->Some_0.1 + run(run(state, first)->Some_0.0, second)->Some_0.1,
            ),
        ),
    decreases first.len(),
{
    let middle = run(state, first)->Some_0;
    let end = run(middle.0, second)->Some_0;
    if first.len() == 0 {
        assert(first + second =~= second);
        assert(middle.1 + end.1 =~= end.1);
    } else {
        let stepped = next(state, first.first())->Some_0;
        lemma_run_joined(stepped.0, first.drop_first(), second);
        assert((first + second).first() == first.first());
        assert((first + second).drop_first() =~= first.drop_first() + second);
        let rest = run(stepped.0, first.drop_first())->Some_0;
        assert(seq![stepped.1] + (rest.1 + end.1) =~= (seq![stepped.1] + rest.1) + end.1);
    }
}

proof fn lemma_grace_window(pid: u32, polls: u32)
    requires
        polls < GRACE_POLLS,
    ensures
        run(State::TermSent { pid, polls }, seen_alive((GRACE_POLLS - polls) as nat)) == Some(
            (
                State::Killing { pid },
                waits(pid, (GRACE_POLLS - polls - 1) as nat).push(Action::RequestForced(pid)),
            ),
        ),
        forced_requests(
            waits(pid, (GRACE_POLLS - polls - 1) as nat).push(Action::RequestForced(pid)),
        ) == 1,
    decreases GRACE_POLLS - polls,
{
    let count = (GRACE_POLLS - polls) as nat;
    let events = seen_alive(count);
    let actions = waits(pid, (count - 1) as nat).push(Action::RequestForced(pid));
    assert(events.first() == Event::Liveness(true));
    if polls + 1 < GRACE_POLLS {
        let more = (polls + 1) as u32;
        lemma_grace_window(pid, more);
        assert(events.drop_first() =~= seen_alive((count - 1) as nat));
        let rest = waits(pid, (count - 2) as nat).push(Action::RequestForced(pid));
        assert(seq![Action::WaitAndQuery(pid)] + rest =~= actions);
        assert(actions.first() == Action::WaitAndQuery(pid));
        assert(actions.drop_first() =~= rest);
    } else {
        assert(events.drop_first() =~= Seq::<Event>::empty());
        assert(run(State::Killing { pid }, events.drop_first()) == Some(
            (State::Killing { pid }, Seq::<Action>::empty()),
        ));
        assert(seq![Action::RequestForced(pid)] + Seq::<Action>::empty() =~= actions);
        assert(actions.drop_first() =~= Seq::<Action>::empty());
        assert(forced_requests(actions.drop_first()) == 0);
    }
}

/// A daemon that stays alive through the whole grace window, and through
/// forced termination too, is reported: once the graceful request is
/// delivered, ten looks find it alive, forced termination is requested
/// exactly once, one more look finds it alive, and the transition fails.
pub proof fn stubborn_daemon_is_killed_once_and_reported(pid: u32)
    ensures
        ({
            let events = seq![Event::GracefulDelivered] + seen_alive(GRACE_POLLS as nat) + seq![
                Event::ForcedRequested,
                Event::Liveness(true),
            ];
            let ran = run(State::Discovered { pid }, events);
            &&& ran is Some
            &&& ran->Some_0.0 == State::Finished
            &&& ran->Some_0.1 == waits(pid, GRACE_POLLS as nat) + seq![
                Action::RequestForced(pid),
                Action::WaitAndQuery(pid),
                Action::Finish(Outcome::Failed(Failure::StillAlive { pid })),
            ]
            &&& forced_requests(ran->Some_0.1) == 1
        }),
{
    let opening = seq![Event::GracefulDelivered];
    let first = seen_alive(GRACE_POLLS as nat);
    let second = seq![Event::ForcedRequested, Event::Liveness(true)];
    let begin = State::Discovered { pid };
    let sent = State::TermSent { pid, polls: 0 };
    let killing = State::Killing { pid };
    let report = Action::Finish(Outcome::Failed(Failure::StillAlive { pid }));
    let tail = seq![Action::WaitAndQuery(pid), report];
    let head = waits(pid, (GRACE_POLLS - 1) as nat).push(Action::RequestForced(pid));
    let all = waits(pid, GRACE_POLLS as nat) + seq![
        Action::RequestForced(pid),
        Action::WaitAndQuery(pid),
        report,
    ];

    assert(run(begin, opening) == Some((sent, seq![Action::WaitAndQuery(pid)]))) by {
        assert(opening.drop_first() =~= Seq::<Event>::empty());
        assert(run(sent, opening.drop_first()) == Some((sent, Seq::<Action>::empty())));
        assert(seq![Action::WaitAndQuery(pid)] + Seq::<Action>::empty() =~= seq![
            Action::WaitAndQuery(pid),
        ]);
    }
    lemma_grace_window(pid, 0);
    assert(run(killing, second) == Some((State::Finished, tail))) by {
        let last = second.drop_first();
        assert(last.first() == Event::Liveness(true));
        assert(last.drop_first() =~= Seq::<Event>::empty());
        assert(run(State::Finished, last.drop_first()) == Some(
            (State::Finished, Seq::<Action>::empty()),
        ));
        assert(run(State::KillSent { pid }, last) == Some(
            (State::Finished, seq![report] + Seq::<Action>::empty()),
        ));
        assert(seq![Action::WaitAndQuery(pid)] + (seq![report] + Seq::<Action>::empty())
            =~= tail);
    }
    lemma_run_joined(sent, first, second);
    assert(run(sent, first + second) == Some((State::Finished, head + tail)));
    lemma_run_joined(begin, opening, first + second);
    assert(opening + (first + second) =~= opening + first + second);
    assert(seq![Action::WaitAndQuery(pid)] + (head + tail) =~= all);
    lemma_forced_requests(begin, opening + first + second);
    lemma_waits_hold_no_force(pid, GRACE_POLLS as nat);
    let rest = seq![Action::RequestForced(pid), Action::WaitAndQuery(pid), report];
    lemma_forced_requests_joined(waits(pid, GRACE_POLLS as nat), rest);
    assert(forced_requests(rest) == 1) by {
        assert(rest.drop_first() =~= tail);
        assert(tail.drop_first() =~= seq![report]);
        assert(seq![report].drop_first() =~= Seq::<Action>::empty());
        assert(forced_requests(seq![report].drop_first()) == 0);
        assert(forced_requests(seq![report]) == 0);
        assert(forced_requests(tail) == 0);
    }
}

proof fn lemma_forced_requests_joined(first: Seq<Action>, second: Seq<Action>)
    ensures
        forced_requests(first + second) == forced_requests(first) + forced_requests(second),
    decreases first.len(),
{
    if first.len() == 0 {
        assert(first + second =~= second);
    } else {
        lemma_forced_requests_joined(first.drop_first(), second);
        assert((first + second).first() == first.first());
        assert((first + second).drop_first() =~= first.drop_first() + second);
    }
}

proof fn lemma_waits_hold_no_force(pid: u32, count: nat)
    ensures
        forced_requests(waits(pid, count)) == 0,
    decreases count,
{
    if count > 0 {
        lemma_waits_hold_no_force(pid, (count - 1) as nat);
        assert(waits(pid, count).drop_first() =~= waits(pid, (count - 1) as nat));
    }
}

proof fn lemma_still_in_grace(pid: u32, polls: u32, count: nat)
    requires
        polls + count < GRACE_POLLS,
    ensures
        run(State::TermSent { pid, polls }, seen_alive(count)) == Some(
            (State::TermSent { pid, polls: (polls + count) as u32 }, waits(pid, count)),
        ),
    decreases count,
{
    let events = seen_alive(count);
    if count > 0 {
        let more = (polls + 1) as u32;
        lemma_still_in_grace(pid, more, (count - 1) as nat);
        assert(events.first() == Event::Liveness(true));
        assert(events.drop_first() =~= seen_alive((count - 1) as nat));
        assert(seq![Action::WaitAndQuery(pid)] + waits(pid, (count - 1) as nat) =~= waits(
            pid,
            count,
        ));
    } else {
        assert(waits(pid, count) =~= Seq::<Action>::empty());
    }
}

/// A daemon that is found dead at any look within the grace window is not
/// killed: after the graceful request was delivered and the daemon was
/// seen alive fewer than ten times, the look that finds it dead leads
/// straight to the start of the new daemon, and forced termination was
/// never requested.
pub proof fn exit_within_grace_needs_no_force(pid: u32, seen: nat)
    requires
        seen < GRACE_POLLS,
    ensures
        ({
            let events = seen_alive(seen) + seq![Event::Liveness(false)];
            let ran = run(State::TermSent { pid, polls: 0 }, events);
            &&& ran is Some
            &&& ran->Some_0.0 == State::Stopped
            &&& ran->Some_0.1 == waits(pid, seen).push(Action::SpawnDetached)
            &&& forced_requests(ran->Some_0.1) == 0
        }),
        next(State::Discovered { pid }, Event::GracefulDelivered) == Some(
            (State::TermSent { pid, polls: 0 }, Action::WaitAndQuery(pid)),
        ),
        next(State::Stopped, Event::Spawned) == Some(
            (State::Finished, Action::Finish(Outcome::Restarted)),
        ),
{
    let first = seen_alive(seen);
    let second = seq![Event::Liveness(false)];
    let begin = State::TermSent { pid, polls: 0 };
    let middle = State::TermSent { pid, polls: seen as u32 };
    lemma_still_in_grace(pid, 0, seen);
    let tail = seq![Action::SpawnDetached];
    assert(run(middle, second) == Some((State::Stopped, tail))) by {
        assert(second.drop_first() =~= Seq::<Event>::empty());
        assert(run(State::Stopped, second.drop_first()) == Some(
            (State::Stopped, Seq::<Action>::empty()),
        ));
        assert(seq![Action::SpawnDetached] + Seq::<Action>::empty() =~= tail);
    }
    lemma_run_joined(begin, first, second);
    assert(waits(pid, seen) + tail =~= waits(pid, seen).push(Action::SpawnDetached));
    lemma_waits_hold_no_force(pid, seen);
    lemma_forced_requests_joined(waits(pid, seen), tail);
    assert(forced_requests(tail) == 0) by {
        assert(tail.drop_first() =~= Seq::<Action>::empty());
        assert(forced_requests(tail.drop_first()) == 0);
    }
}

/// A PID file that holds the numeral of a process ID records that ID.
pub proof fn pid_file_round_trip(pid: u32)
    requires
        pid > 0,
    ensures
        recorded_pid(decimal(pid as nat)) == Some(pid),
{
    let d = decimal(pid as nat);
    lemma_decimal_is_numeral(pid as nat);
    decimal_round_trip(pid);
    assert(is_digit(d[0]));
    assert(is_digit(d[d.len() - 1]));
    assert(skip_spaces(d, 0, d.len() as int) == 0);
    assert(trim_stop(d, 0, d.len() as int) == d.len());
    assert(d.subrange(0, d.len() as int) =~= d);
}

/// A recorded PID whose process is alive is the daemon: the search by
/// name is not asked for. A recorded PID whose process is dead is passed
/// over, and the search by name decides.
pub proof fn recorded_pid_is_probed_first(text: String, pid: u32)
    requires
        recorded_pid(text@) == Some(pid),
    ensures
        next(State::ReadingPidFile, Event::PidFile(Some(text))) == Some(
            (State::ProbingRecorded { pid }, Action::QueryLiveness(pid)),
        ),
        next(State::ProbingRecorded { pid }, Event::Liveness(true)) == Some(
            (State::Discovered { pid }, Action::RequestGraceful(pid)),
        ),
        next(State::ProbingRecorded { pid }, Event::Liveness(false)) == Some(
            (State::SearchingByName, Action::SearchByName),
        ),
{
}

} // verus!
