use shell_handoff::environment::Environment;
use shell_handoff::menu::{display_selected, profile_prompt, region_prompt, MenuInteractionError};
use shell_handoff::process::{LookupError, ProcessHandle, ProcessSnapshot};
use shell_handoff::session::{
    exit_status, mode_of, Action, Event, Failure, Mode, Phase, Session, Step,
};

fn handle(pid: u32, parent: Option<u32>, exe: &str) -> ProcessHandle {
    ProcessHandle { pid, parent, exe: exe.as_bytes().to_vec() }
}

fn table_with_shell() -> ProcessSnapshot {
    ProcessSnapshot {
        handles: vec![
            handle(1, None, "/sbin/init"),
            handle(412, Some(1), "/bin/zsh"),
            handle(977, Some(412), "/usr/local/bin/tool"),
        ],
    }
}

fn table_after_parent_left() -> ProcessSnapshot {
    ProcessSnapshot {
        handles: vec![
            handle(1, None, "/sbin/init"),
            handle(977, Some(412), "/usr/local/bin/tool"),
            handle(1500, Some(977), "/bin/zsh"),
        ],
    }
}

fn five_profiles() -> Vec<String> {
    vec![
        String::from("default"),
        String::from("dev"),
        String::from("ped"),
        String::from("prod"),
        String::from("stage"),
    ]
}

fn session_waiting_for_parent_scan() -> Session {
    let mut session = Session::new(Mode::RegionOnly, Environment::new());
    assert_eq!(session.advance(Event::Start), Action::ShowRegionMenu);
    assert_eq!(session.advance(Event::Choice(Some(30))), Action::Announce);
    let scanned = Event::Scanned { own_pid: Some(977), snapshot: table_with_shell() };
    assert_eq!(session.advance(scanned), Action::Respawn);
    assert_eq!(session.advance(Event::ShellExited), Action::Rescan);
    session
}

#[test]
fn flags_give_the_mode() {
    assert_eq!(mode_of(false, false), Mode::ProfileThenRegion);
    assert_eq!(mode_of(false, true), Mode::RegionOnly);
    assert_eq!(mode_of(true, false), Mode::Version);
    assert_eq!(mode_of(true, true), Mode::Version);
}

#[test]
fn exit_status_of_each_action() {
    assert_eq!(exit_status(Action::PrintVersion), Some(1));
    assert_eq!(exit_status(Action::Finish { signal: None }), Some(0));
    assert_eq!(exit_status(Action::Finish { signal: Some(412) }), Some(0));
    assert_eq!(exit_status(Action::Abort), Some(101));
    assert_eq!(exit_status(Action::LoadProfiles), None);
    assert_eq!(exit_status(Action::ShowProfileMenu), None);
    assert_eq!(exit_status(Action::ShowRegionMenu), None);
    assert_eq!(exit_status(Action::Announce), None);
    assert_eq!(exit_status(Action::Respawn), None);
    assert_eq!(exit_status(Action::Rescan), None);
}

#[test]
fn whole_session_without_flags() {
    let mut session = Session::new(mode_of(false, false), Environment::new());
    assert_eq!(session.phase(), Phase::Idle);

    assert_eq!(session.advance(Event::Start), Action::LoadProfiles);
    assert_eq!(session.phase(), Phase::Selecting);

    assert_eq!(session.advance(Event::Profiles(Some(five_profiles()))), Action::ShowProfileMenu);
    assert_eq!(session.profiles, five_profiles());
    assert_eq!(profile_prompt(&session.env), "profile (current:  )");

    assert_eq!(session.advance(Event::Choice(Some(2))), Action::ShowRegionMenu);
    assert_eq!(session.env.get("AWS_PROFILE"), Some(String::from("ped")));
    assert_eq!(session.phase(), Phase::Selecting);
    assert_eq!(region_prompt(&session.env), "region (current:  )");

    assert_eq!(session.advance(Event::Choice(Some(22))), Action::Announce);
    assert_eq!(session.env.get("AWS_DEFAULT_REGION"), Some(String::from("eu-west-1")));
    assert_eq!(session.phase(), Phase::Mutated);
    assert_eq!(
        display_selected(&session.env),
        "\u{1b}c\n ->  Profile: ped | Region: eu-west-1 \n\n"
    );

    let scanned = Event::Scanned { own_pid: Some(977), snapshot: table_with_shell() };
    assert_eq!(session.advance(scanned), Action::Respawn);
    assert_eq!(session.shell, b"/bin/zsh".to_vec());
    assert_eq!(session.pid, 977);
    assert_eq!(session.phase(), Phase::Mutated);

    assert_eq!(session.advance(Event::ShellExited), Action::Rescan);
    assert_eq!(session.phase(), Phase::Respawned);

    let rescanned = Event::Scanned { own_pid: Some(977), snapshot: table_with_shell() };
    let last = session.advance(rescanned);
    assert_eq!(last, Action::Finish { signal: Some(412) });
    assert_eq!(exit_status(last), Some(0));
    assert_eq!(session.phase(), Phase::Terminated);
    assert_eq!(session.env.get("AWS_PROFILE"), Some(String::from("ped")));
    assert_eq!(session.env.get("AWS_DEFAULT_REGION"), Some(String::from("eu-west-1")));
}

#[test]
fn missing_profile_source_aborts_before_any_menu() {
    let mut env = Environment::new();
    env.set("AWS_PROFILE", "before");
    let mut session = Session::new(Mode::ProfileThenRegion, env);
    assert_eq!(session.advance(Event::Start), Action::LoadProfiles);
    let action = session.advance(Event::Profiles(None));
    assert_eq!(action, Action::Abort);
    assert_eq!(session.step, Step::Failed(Failure::ConfigLookup));
    assert_eq!(session.phase(), Phase::Failed);
    assert!(exit_status(action).unwrap() != 0);
    assert_eq!(session.env.assignments.len(), 1);
    assert_eq!(session.env.get("AWS_PROFILE"), Some(String::from("before")));
    assert_eq!(session.env.get("AWS_DEFAULT_REGION"), None);
}

#[test]
fn version_mode_ends_with_status_one() {
    let mut session = Session::new(mode_of(true, false), Environment::new());
    let action = session.advance(Event::Start);
    assert_eq!(action, Action::PrintVersion);
    assert_eq!(exit_status(action), Some(1));
    assert_eq!(session.step, Step::Done);
    assert!(session.env.assignments.is_empty());
}

#[test]
fn region_only_mode_skips_the_profile_menu() {
    let mut env = Environment::new();
    env.set("AWS_PROFILE", "ped");
    env.set("AWS_DEFAULT_REGION", "us-east-1");
    let mut session = Session::new(mode_of(false, true), env);
    assert_eq!(session.advance(Event::Start), Action::ShowRegionMenu);
    assert_eq!(region_prompt(&session.env), "region (current: us-east-1 )");
    assert_eq!(session.advance(Event::Choice(Some(23))), Action::Announce);
    assert_eq!(session.env.default_env("AWS_DEFAULT_REGION"), "eu-west-2");
    assert_eq!(session.env.default_env("AWS_PROFILE"), "ped");
}

#[test]
fn aborted_menu_fails_the_session() {
    let mut session = Session::new(Mode::ProfileThenRegion, Environment::new());
    session.advance(Event::Start);
    session.advance(Event::Profiles(Some(five_profiles())));
    assert_eq!(session.advance(Event::Choice(None)), Action::Abort);
    assert_eq!(
        session.step,
        Step::Failed(Failure::MenuInteraction(MenuInteractionError::Aborted))
    );
    assert!(session.env.assignments.is_empty());

    let mut session = Session::new(Mode::ProfileThenRegion, Environment::new());
    session.advance(Event::Start);
    session.advance(Event::Profiles(Some(five_profiles())));
    assert_eq!(session.advance(Event::Choice(Some(5))), Action::Abort);
    assert_eq!(
        session.step,
        Step::Failed(Failure::MenuInteraction(MenuInteractionError::OutOfRange))
    );

    let mut session = Session::new(Mode::RegionOnly, Environment::new());
    session.advance(Event::Start);
    assert_eq!(session.advance(Event::Choice(Some(36))), Action::Abort);
    assert_eq!(
        session.step,
        Step::Failed(Failure::MenuInteraction(MenuInteractionError::OutOfRange))
    );
    assert!(session.env.assignments.is_empty());
}

#[test]
fn failed_lookup_fails_the_session() {
    let errors = [
        (Some(2), LookupError::ProcessNotFound),
        (None, LookupError::ProcessNotFound),
        (Some(1), LookupError::NoParent),
        (Some(1500), LookupError::ParentNotFound),
    ];
    for (own_pid, error) in errors {
        let mut session = Session::new(Mode::RegionOnly, Environment::new());
        session.advance(Event::Start);
        session.advance(Event::Choice(Some(0)));
        let snapshot = ProcessSnapshot {
            handles: vec![handle(1, None, "/sbin/init"), handle(1500, Some(977), "/bin/zsh")],
        };
        assert_eq!(session.advance(Event::Scanned { own_pid, snapshot }), Action::Abort);
        assert_eq!(session.step, Step::Failed(Failure::ProcessLookup(error)));
        assert_eq!(session.env.default_env("AWS_DEFAULT_REGION"), "af-south-1");
    }
}

#[test]
fn failed_spawn_fails_the_session() {
    let mut session = Session::new(Mode::RegionOnly, Environment::new());
    session.advance(Event::Start);
    session.advance(Event::Choice(Some(0)));
    session.advance(Event::Scanned { own_pid: Some(977), snapshot: table_with_shell() });
    let action = session.advance(Event::SpawnFailed);
    assert_eq!(action, Action::Abort);
    assert_eq!(session.step, Step::Failed(Failure::Spawn));
    assert_eq!(exit_status(action), Some(101));
}

#[test]
fn terminating_a_parent_that_has_gone_succeeds_each_time() {
    for _ in 0..2 {
        let mut session = session_waiting_for_parent_scan();
        let rescanned = Event::Scanned { own_pid: Some(977), snapshot: table_after_parent_left() };
        let action = session.advance(rescanned);
        assert_eq!(action, Action::Finish { signal: None });
        assert_eq!(exit_status(action), Some(0));
        assert_eq!(session.phase(), Phase::Terminated);

        let again = Event::Scanned { own_pid: Some(977), snapshot: table_after_parent_left() };
        assert_eq!(session.advance(again), Action::Finish { signal: None });
        assert_eq!(session.step, Step::Done);
    }
    let mut session = session_waiting_for_parent_scan();
    let emptied = Event::Scanned { own_pid: None, snapshot: ProcessSnapshot { handles: Vec::new() } };
    assert_eq!(session.advance(emptied), Action::Finish { signal: None });
}

#[test]
fn parent_is_signalled_once() {
    let mut session = session_waiting_for_parent_scan();
    let rescanned = Event::Scanned { own_pid: None, snapshot: table_with_shell() };
    assert_eq!(session.advance(rescanned), Action::Finish { signal: Some(412) });
    let again = Event::Scanned { own_pid: Some(977), snapshot: table_with_shell() };
    assert_eq!(session.advance(again), Action::Finish { signal: None });
    assert_eq!(session.advance(Event::Start), Action::Finish { signal: None });
    assert_eq!(session.step, Step::Done);
}

#[test]
fn fresh_scan_decides_whom_to_signal() {
    let mut session = session_waiting_for_parent_scan();
    let moved = ProcessSnapshot {
        handles: vec![handle(977, Some(2000), "/usr/local/bin/tool"), handle(2000, None, "/bin/sh")],
    };
    let action = session.advance(Event::Scanned { own_pid: Some(3), snapshot: moved });
    assert_eq!(action, Action::Finish { signal: Some(2000) });
}

#[test]
fn unexpected_outcome_fails_the_session() {
    let mut session = Session::new(Mode::ProfileThenRegion, Environment::new());
    assert_eq!(session.advance(Event::Choice(Some(0))), Action::Abort);
    assert_eq!(session.step, Step::Failed(Failure::Unexpected));
    assert_eq!(session.advance(Event::Start), Action::Abort);
    assert_eq!(session.step, Step::Failed(Failure::Unexpected));

    let mut session = Session::new(Mode::ProfileThenRegion, Environment::new());
    session.advance(Event::Start);
    assert_eq!(session.advance(Event::ShellExited), Action::Abort);
    assert_eq!(session.step, Step::Failed(Failure::Unexpected));
    assert!(session.env.assignments.is_empty());
}

#[test]
fn new_session_is_idle() {
    let session = Session::new(Mode::RegionOnly, Environment::new());
    assert_eq!(session.mode, Mode::RegionOnly);
    assert_eq!(session.step, Step::Idle);
    assert_eq!(session.phase(), Phase::Idle);
    assert!(session.profiles.is_empty());
    assert!(session.shell.is_empty());
}
