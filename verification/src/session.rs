//! The order of one session: which outside work comes next, and what its
//! outcome leads to. The caller does the outside work that an [`Action`]
//! names and reports its outcome as the next [`Event`].

use crate::environment::{Environment, AWS_DEFAULT_PROFILE, AWS_DEFAULT_REGION};
use crate::menu::{
    checked, names_view, profile_menu, region_menu, MenuInteractionError, REGIONS, REGION_COUNT,
};
use crate::process::{LookupError, ProcessSnapshot};
use vstd::prelude::*;

verus! {

/// What an invocation asks for.
#[derive(Clone, Copy, Debug, PartialEq, Eq, Structural)]
pub enum Mode {
    /// Show the version and end.
    Version,
    /// Select a region only.
    RegionOnly,
    /// Select a profile, then a region.
    ProfileThenRegion,
}

/// The stages of a session, in the order in which they are passed.
#[derive(Clone, Copy, Debug, PartialEq, Eq, Structural)]
pub enum Phase {
    Idle,
    Selecting,
    Mutated,
    Respawned,
    Terminated,
    Failed,
}

/// Why a session failed.
#[derive(Clone, Copy, Debug, PartialEq, Eq, Structural)]
pub enum Failure {
    /// The profile source could not be found or read.
    ConfigLookup,
    /// A menu gave no selection.
    MenuInteraction(MenuInteractionError),
    /// The walk from this process to its parent gave nothing.
    ProcessLookup(LookupError),
    /// The replacement shell could not be started.
    Spawn,
    /// An outcome was reported that the session was not waiting for.
    Unexpected,
}

/// Where a session stands: what it waits for, or how it ended.
#[derive(Clone, Copy, Debug, PartialEq, Eq, Structural)]
pub enum Step {
    /// Nothing has happened yet.
    Idle,
    /// The profile names were asked for.
    AwaitProfiles,
    /// The profile menu is shown.
    AwaitProfileChoice,
    /// The region menu is shown.
    AwaitRegionChoice,
    /// The selection is made; the process table is being scanned for the
    /// shell to start.
    AwaitShellScan,
    /// The replacement shell was asked for, and runs until its user leaves.
    AwaitShellExit,
    /// The replacement shell has ended; the process table is being scanned
    /// anew for the parent to end.
    AwaitParentScan,
    /// The run is over and went well.
    Done,
    /// The run is over and failed.
    Failed(Failure),
}

/// The outcome of the outside work that the last action named.
pub enum Event {
    /// The invocation begins.
    Start,
    /// The profile names, or `None` where their source could not be read.
    Profiles(Option<Vec<String>>),
    /// The line confirmed in a menu, or `None` where none was.
    Choice(Option<usize>),
    /// A scan of the process table, with this process's own id where it
    /// could be had.
    Scanned { own_pid: Option<u32>, snapshot: ProcessSnapshot },
    /// The replacement shell ran and has ended.
    ShellExited,
    /// The replacement shell could not be started.
    SpawnFailed,
}

/// The outside work to do next.
#[derive(Clone, Copy, Debug, PartialEq, Eq, Structural)]
pub enum Action {
    /// Show the version, and end with status 1.
    PrintVersion,
    /// Read the profile names; report `Profiles`.
    LoadProfiles,
    /// Show the profile menu over the session's profiles; report `Choice`.
    ShowProfileMenu,
    /// Show the region menu; report `Choice`.
    ShowRegionMenu,
    /// Show the selection, then scan the process table; report `Scanned`.
    Announce,
    /// Export the variables, start the session's shell and wait for its
    /// end; report `ShellExited` or `SpawnFailed`.
    Respawn,
    /// Scan the process table anew; report `Scanned`.
    Rescan,
    /// Signal the named process, if any, to end; then end with status 0.
    Finish { signal: Option<u32> },
    /// End with a status that tells of failure.
    Abort,
}

/// A session: its mode, where it stands, and what it has gathered.
pub struct Session {
    pub mode: Mode,
    pub step: Step,
    /// The variables that the replacement shell is to inherit.
    pub env: Environment,
    /// The profile names that the profile menu offers.
    pub profiles: Vec<String>,
    /// This process's own id, once known.
    pub pid: u32,
    /// The path of the shell to start, once known.
    pub shell: Vec<u8>,
}

/// A session as the contracts speak of it.
pub ghost struct SessionView {
    pub mode: Mode,
    pub step: Step,
    pub env: Map<Seq<char>, Seq<char>>,
    pub profiles: Seq<Seq<char>>,
    pub pid: u32,
    pub shell: Seq<u8>,
}

impl View for Session {
    type V = SessionView;

    open spec fn view(&self) -> SessionView {
        SessionView {
            mode: self.mode,
            step: self.step,
            env: self.env@,
            profiles: names_view(self.profiles@),
            pid: self.pid,
            shell: self.shell@,
        }
    }
}

/// The stage that a step belongs to.
pub open spec fn phase_of(step: Step) -> Phase {
    match step {
        Step::Idle => Phase::Idle,
        Step::AwaitProfiles | Step::AwaitProfileChoice | Step::AwaitRegionChoice => Phase::Selecting,
        Step::AwaitShellScan | Step::AwaitShellExit => Phase::Mutated,
        Step::AwaitParentScan => Phase::Respawned,
        Step::Done => Phase::Terminated,
        Step::Failed(_) => Phase::Failed,
    }
}

/// How far along a stage is; the two ways to end count the same.
pub open spec fn rank(phase: Phase) -> nat {
    match phase {
        Phase::Idle => 0,
        Phase::Selecting => 1,
        Phase::Mutated => 2,
        Phase::Respawned => 3,
        Phase::Terminated => 4,
        Phase::Failed => 4,
    }
}

/// The status with which the process ends after `action`, where `action`
/// ends it.
pub open spec fn status_of(action: Action) -> Option<u8> {
    match action {
        Action::PrintVersion => Some(1u8),
        Action::Finish { .. } => Some(0u8),
        Action::Abort => Some(101u8),
        _ => None,
    }
}

impl SessionView {
    /// The same session at another step.
    pub open spec fn at(self, step: Step) -> SessionView {
        SessionView { step, ..self }
    }

    /// The session failed, with nothing else changed.
    pub open spec fn failed(self, failure: Failure) -> (SessionView, Action) {
        (self.at(Step::Failed(failure)), Action::Abort)
    }
}

/// What a session at `pre` becomes on `event`, and what is to be done next.
pub open spec fn next(pre: SessionView, event: Event) -> (SessionView, Action) {
    match pre.step {
        Step::Done => (pre, Action::Finish { signal: None }),
        Step::Failed(_) => (pre, Action::Abort),
        Step::Idle => match event {
            Event::Start => match pre.mode {
                Mode::Version => (pre.at(Step::Done), Action::PrintVersion),
                Mode::RegionOnly => (pre.at(Step::AwaitRegionChoice), Action::ShowRegionMenu),
                Mode::ProfileThenRegion => (pre.at(Step::AwaitProfiles), Action::LoadProfiles),
            },
            _ => pre.failed(Failure::Unexpected),
        },
        Step::AwaitProfiles => match event {
            Event::Profiles(Some(names)) => (
                SessionView { step: Step::AwaitProfileChoice, profiles: names_view(names@), ..pre },
                Action::ShowProfileMenu,
            ),
            Event::Profiles(None) => pre.failed(Failure::ConfigLookup),
            _ => pre.failed(Failure::Unexpected),
        },
        Step::AwaitProfileChoice => match event {
            Event::Choice(selection) => match checked(selection, pre.profiles.len()) {
                Ok(i) => (
                    SessionView {
                        step: Step::AwaitRegionChoice,
                        env: pre.env.insert(AWS_DEFAULT_PROFILE@, pre.profiles[i]),
                        ..pre
                    },
                    Action::ShowRegionMenu,
                ),
                Err(error) => pre.failed(Failure::MenuInteraction(error)),
            },
            _ => pre.failed(Failure::Unexpected),
        },
        Step::AwaitRegionChoice => match event {
            Event::Choice(selection) => match checked(selection, REGION_COUNT as nat) {
                Ok(i) => (
                    SessionView {
                        step: Step::AwaitShellScan,
                        env: pre.env.insert(AWS_DEFAULT_REGION@, REGIONS[i]@),
                        ..pre
                    },
                    Action::Announce,
                ),
                Err(error) => pre.failed(Failure::MenuInteraction(error)),
            },
            _ => pre.failed(Failure::Unexpected),
        },
        Step::AwaitShellScan => match event {
            Event::Scanned { own_pid: Some(pid), snapshot } => match snapshot.parent_of(pid) {
                Ok(handle) => (
                    SessionView { step: Step::AwaitShellExit, pid, shell: handle.exe@, ..pre },
                    Action::Respawn,
                ),
                Err(error) => pre.failed(Failure::ProcessLookup(error)),
            },
            Event::Scanned { own_pid: None, .. } => pre.failed(
                Failure::ProcessLookup(LookupError::ProcessNotFound),
            ),
            _ => pre.failed(Failure::Unexpected),
        },
        Step::AwaitShellExit => match event {
            Event::ShellExited => (pre.at(Step::AwaitParentScan), Action::Rescan),
            Event::SpawnFailed => pre.failed(Failure::Spawn),
            _ => pre.failed(Failure::Unexpected),
        },
        Step::AwaitParentScan => match event {
            Event::Scanned { snapshot, .. } => match snapshot.parent_of(pre.pid) {
                Ok(handle) => (pre.at(Step::Done), Action::Finish { signal: Some(handle.pid) }),
                Err(_) => (pre.at(Step::Done), Action::Finish { signal: None }),
            },
            _ => pre.failed(Failure::Unexpected),
        },
    }
}

/// The mode that the flags ask for: the version flag goes before the region
/// flag.
pub fn mode_of(version: bool, region: bool) -> (mode: Mode)
    ensures
        mode == if version {
            Mode::Version
        } else if region {
            Mode::RegionOnly
        } else {
            Mode::ProfileThenRegion
        },
{
    if version {
        Mode::Version
    } else if region {
        Mode::RegionOnly
    } else {
        Mode::ProfileThenRegion
    }
}

/// The status with which the process ends after `action`, or `None` where
/// the session goes on.
pub fn exit_status(action: Action) -> (status: Option<u8>)
    ensures
        status == status_of(action),
{
    match action {
        Action::PrintVersion => Some(1u8),
        Action::Finish { signal: _ } => Some(0u8),
        Action::Abort => Some(101u8),
        _ => None,
    }
}

impl Session {
    /// A session that has not begun, over the variables in force.
    pub fn new(mode: Mode, env: Environment) -> (session: Session)
        ensures
            session@ == (SessionView {
                mode,
                step: Step::Idle,
                env: env@,
                profiles: Seq::<Seq<char>>::empty(),
                pid: 0,
                shell: Seq::<u8>::empty(),
            }),
    {
        let session = Session {
            mode,
            step: Step::Idle,
            env,
            profiles: Vec::new(),
            pid: 0,
            shell: Vec::new(),
        };
        assert(session@.profiles =~= Seq::<Seq<char>>::empty());
        session
    }

    /// The stage at which the session stands.
    pub fn phase(&self) -> (phase: Phase)
        ensures
            phase == phase_of(self.step),
    {
        match self.step {
            Step::Idle => Phase::Idle,
            Step::AwaitProfiles => Phase::Selecting,
            Step::AwaitProfileChoice => Phase::Selecting,
            Step::AwaitRegionChoice => Phase::Selecting,
            Step::AwaitShellScan => Phase::Mutated,
            Step::AwaitShellExit => Phase::Mutated,
            Step::AwaitParentScan => Phase::Respawned,
            Step::Done => Phase::Terminated,
            Step::Failed(_) => Phase::Failed,
        }
    }

    fn fail(&mut self, failure: Failure) -> (action: Action)
        ensures
            (final(self)@, action) == old(self)@.failed(failure),
    {
        self.step = Step::Failed(failure);
        Action::Abort
    }

    /// Takes the outcome of the last action and names the next one.
    pub fn advance(&mut self, event: Event) -> (action: Action)
        ensures
            (final(self)@, action) == next(old(self)@, event),
    {
        match self.step {
            Step::Done => Action::Finish { signal: None },
            Step::Failed(_) => Action::Abort,
            Step::Idle => match event {
                Event::Start => match self.mode {
                    Mode::Version => {
                        self.step = Step::Done;
                        Action::PrintVersion
                    },
                    Mode::RegionOnly => {
                        self.step = Step::AwaitRegionChoice;
                        Action::ShowRegionMenu
                    },
                    Mode::ProfileThenRegion => {
                        self.step = Step::AwaitProfiles;
                        Action::LoadProfiles
                    },
                },
                _ => self.fail(Failure::Unexpected),
            },
            Step::AwaitProfiles => match event {
                Event::Profiles(Some(names)) => {
                    self.profiles = names;
                    self.step = Step::AwaitProfileChoice;
                    Action::ShowProfileMenu
                },
                Event::Profiles(None) => self.fail(Failure::ConfigLookup),
                _ => self.fail(Failure::Unexpected),
            },
            Step::AwaitProfileChoice => match event {
                Event::Choice(selection) => {
                    match profile_menu(&mut self.env, &self.profiles, selection) {
                        Ok(()) => {
                            self.step = Step::AwaitRegionChoice;
                            Action::ShowRegionMenu
                        },
                        Err(error) => self.fail(Failure::MenuInteraction(error)),
                    }
                },
                _ => self.fail(Failure::Unexpected),
            },
            Step::AwaitRegionChoice => match event {
                Event::Choice(selection) => {
                    match region_menu(&mut self.env, selection) {
                        Ok(()) => {
                            self.step = Step::AwaitShellScan;
                            Action::Announce
                        },
                        Err(error) => self.fail(Failure::MenuInteraction(error)),
                    }
                },
                _ => self.fail(Failure::Unexpected),
            },
            Step::AwaitShellScan => match event {
                Event::Scanned { own_pid: Some(pid), snapshot } => {
                    match snapshot.resolve_parent_executable(pid) {
                        Ok(path) => {
                            self.pid = pid;
                            self.shell = path;
                            self.step = Step::AwaitShellExit;
                            Action::Respawn
                        },
                        Err(error) => self.fail(Failure::ProcessLookup(error)),
                    }
                },
                Event::Scanned { own_pid: None, snapshot: _ } => self.fail(
                    Failure::ProcessLookup(LookupError::ProcessNotFound),
                ),
                _ => self.fail(Failure::Unexpected),
            },
            Step::AwaitShellExit => match event {
                Event::ShellExited => {
                    self.step = Step::AwaitParentScan;
                    Action::Rescan
                },
                Event::SpawnFailed => self.fail(Failure::Spawn),
                _ => self.fail(Failure::Unexpected),
            },
            Step::AwaitParentScan => match event {
                Event::Scanned { own_pid: _, snapshot } => {
                    self.step = Step::Done;
                    match snapshot.terminate_parent_process(self.pid) {
                        Ok(parent) => Action::Finish { signal: Some(parent) },
                        Err(_) => Action::Finish { signal: None },
                    }
                },
                _ => self.fail(Failure::Unexpected),
            },
        }
    }
}

/// A session never goes back to an earlier stage.
pub proof fn never_goes_back(pre: SessionView, event: Event)
    ensures
        rank(phase_of(next(pre, event).0.step)) >= rank(phase_of(pre.step)),
{
}

/// A session that has ended stays as it is whatever is reported to it, and
/// one that ended well names no process to signal again.
pub proof fn ended_stays_ended(pre: SessionView, event: Event)
    requires
        pre.step is Done || pre.step is Failed,
    ensures
        next(pre, event).0 == pre,
        status_of(next(pre, event).1) is Some,
        pre.step is Done ==> next(pre, event).1 == (Action::Finish { signal: None }),
{
}

/// The process ends exactly when the session has: with status 0 after the
/// parent was dealt with, with another status after a failure, and a
/// failure leaves the variables as they were.
pub proof fn status_tells_the_end(pre: SessionView, event: Event)
    ensures
        status_of(next(pre, event).1) is Some <==> (next(pre, event).0.step is Done || next(
            pre,
            event,
        ).0.step is Failed),
        next(pre, event).0.step is Failed ==> status_of(next(pre, event).1) == Some(101u8)
            && next(pre, event).0.env == pre.env,
        next(pre, event).1 is Finish ==> status_of(next(pre, event).1) == Some(0u8),
{
}

/// Without the profile names a session fails before any menu, with the
/// variables untouched.
pub proof fn missing_profiles_abort(pre: SessionView)
    requires
        pre.step is AwaitProfiles,
    ensures
        next(pre, Event::Profiles(None)) == (
            pre.at(Step::Failed(Failure::ConfigLookup)),
            Action::Abort,
        ),
        next(pre, Event::Profiles(None)).0.env == pre.env,
{
}

/// Ending the parent succeeds where the parent has gone already: whichever
/// scans are reported, as long as none of them leads from this process to a
/// parent, the session ends well each time and signals nothing.
pub proof fn gone_parent_ends_well(
    pre: SessionView,
    first: ProcessSnapshot,
    second: ProcessSnapshot,
    first_pid: Option<u32>,
    second_pid: Option<u32>,
)
    requires
        pre.step is AwaitParentScan,
        first.parent_of(pre.pid) is Err,
        second.parent_of(pre.pid) is Err,
    ensures
        next(pre, Event::Scanned { own_pid: first_pid, snapshot: first }) == (
            pre.at(Step::Done),
            Action::Finish { signal: None },
        ),
        next(pre, Event::Scanned { own_pid: second_pid, snapshot: second }) == next(
            pre,
            Event::Scanned { own_pid: first_pid, snapshot: first },
        ),
        next(
            next(pre, Event::Scanned { own_pid: first_pid, snapshot: first }).0,
            Event::Scanned { own_pid: second_pid, snapshot: second },
        ) == next(pre, Event::Scanned { own_pid: first_pid, snapshot: first }),
{
}

/// The parent is signalled only as the last step of a session that saw its
/// shell end, and it is the parent that the fresh scan shows.
pub proof fn signal_goes_to_parent(pre: SessionView, event: Event, target: u32)
    requires
        next(pre, event).1 == (Action::Finish { signal: Some(target) }),
    ensures
        pre.step is AwaitParentScan,
        next(pre, event).0.step is Done,
        event matches Event::Scanned { snapshot, .. } && snapshot.parent_of(pre.pid) is Ok
            && snapshot.parent_of(pre.pid)->Ok_0.pid == target,
{
}

/// How many times a session at `pre` names a process to signal while the
/// outcomes `events` are reported to it one after the other.
pub open spec fn signals(pre: SessionView, events: Seq<Event>) -> nat
    decreases events.len(),
{
    if events.len() == 0 {
        0
    } else {
        let (mid, action) = next(pre, events[0]);
        let here: nat = if action matches Action::Finish { signal: Some(_) } {
            1
        } else {
            0
        };
        here + signals(mid, events.drop_first())
    }
}

/// A session that has ended names no process to signal, whatever is
/// reported to it.
pub proof fn ended_signals_nothing(pre: SessionView, events: Seq<Event>)
    requires
        pre.step is Done || pre.step is Failed,
    ensures
        signals(pre, events) == 0,
    decreases events.len(),
{
    if events.len() > 0 {
        ended_signals_nothing(next(pre, events[0]).0, events.drop_first());
    }
}

/// Whatever is reported to a session, and in whatever order, it names a
/// process to signal at most once.
pub proof fn parent_is_signalled_at_most_once(pre: SessionView, events: Seq<Event>)
    ensures
        signals(pre, events) <= 1,
    decreases events.len(),
{
    if events.len() > 0 {
        let (mid, action) = next(pre, events[0]);
        if action matches Action::Finish { signal: Some(_) } {
            ended_signals_nothing(mid, events.drop_first());
        } else {
            parent_is_signalled_at_most_once(mid, events.drop_first());
        }
    }
}

} // verus!
