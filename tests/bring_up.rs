use signal_network::{
    is_active, patch_result, start_result, Action, AdapterStep, Advisory, BeaconController,
    BeaconState, FatalError, GattStatus, Outcome, Stage, StartError, WriteError,
    ADAPTER_SETTLE_MS, SERVER_SETTLE_MS,
};

fn ok() -> Outcome {
    Outcome::Exited { success: true }
}

fn failed() -> Outcome {
    Outcome::Exited { success: false }
}

/// Feeds the outcomes in order and records each action that was asked for,
/// together with the advisories reported.
fn drive(c: &mut BeaconController, outcomes: &[Outcome]) -> (Vec<Action>, Vec<Advisory>) {
    let mut actions = Vec::new();
    let mut advisories = Vec::new();
    for o in outcomes {
        actions.push(c.action());
        if let Some(a) = c.advance(*o) {
            advisories.push(a);
        }
    }
    actions.push(c.action());
    (actions, advisories)
}

#[test]
fn active_daemon_skips_start_and_runs_adapter_steps_in_order() {
    let mut c = BeaconController::new(3);
    let outcomes = [
        ok(), // patch written
        ok(), // daemon active
        ok(), // power
        ok(),
        ok(), // discoverable
        ok(),
        ok(), // alias
        ok(),
        ok(), // show
    ];
    let (actions, advisories) = drive(&mut c, &outcomes);
    assert!(!actions.contains(&Action::StartDaemon));
    assert_eq!(
        actions,
        vec![
            Action::WritePatch,
            Action::QueryDaemon,
            Action::RunAdapter(AdapterStep::Power),
            Action::Wait(ADAPTER_SETTLE_MS),
            Action::RunAdapter(AdapterStep::Discoverable),
            Action::Wait(ADAPTER_SETTLE_MS),
            Action::RunAdapter(AdapterStep::Alias),
            Action::Wait(ADAPTER_SETTLE_MS),
            Action::RunAdapter(AdapterStep::Show),
            Action::ConnectBus,
        ]
    );
    assert_eq!(ADAPTER_SETTLE_MS, 500);
    assert!(advisories.is_empty());
}

#[test]
fn start_command_that_cannot_run_halts_before_adapter() {
    let mut c = BeaconController::new(3);
    let (actions, advisories) = drive(&mut c, &[ok(), failed(), Outcome::NotExecuted]);
    assert_eq!(
        actions,
        vec![
            Action::WritePatch,
            Action::QueryDaemon,
            Action::StartDaemon,
            Action::Abort(FatalError::DaemonStartFailed),
        ]
    );
    assert!(advisories.is_empty());
    assert_eq!(c.state(), BeaconState::Halted);
    // Nothing moves it on from there.
    let (actions, _) = drive(&mut c, &[ok(), ok()]);
    assert!(actions
        .iter()
        .all(|a| *a == Action::Abort(FatalError::DaemonStartFailed)));
}

#[test]
fn missing_script_in_all_places_still_advertises() {
    let mut c = BeaconController::new(3);
    let mut outcomes = vec![ok(), ok()];
    outcomes.extend([ok(); 7]);
    outcomes.push(ok()); // bus connected
    outcomes.extend([failed(), failed(), failed()]); // no script anywhere
    let (actions, advisories) = drive(&mut c, &outcomes);
    let tail = &actions[actions.len() - 5..];
    assert_eq!(
        tail,
        &[
            Action::ConnectBus,
            Action::ProbeScript(0),
            Action::ProbeScript(1),
            Action::ProbeScript(2),
            Action::Park,
        ]
    );
    assert!(!actions.iter().any(|a| matches!(a, Action::SpawnServer(_))));
    assert_eq!(advisories, vec![Advisory::GattUnavailable]);
    assert_eq!(c.stage(), Stage::Advertising(GattStatus::Unavailable));
    assert_eq!(c.state(), BeaconState::Advertising);
}

#[test]
fn bus_failure_aborts_instead_of_parking() {
    let mut c = BeaconController::new(3);
    let mut outcomes = vec![ok(), ok()];
    outcomes.extend([ok(); 7]);
    outcomes.push(Outcome::NotExecuted);
    let (actions, _) = drive(&mut c, &outcomes);
    assert_eq!(actions.last(), Some(&Action::Abort(FatalError::BusUnreachable)));
    assert!(!actions.contains(&Action::Park));
    assert!(!actions.iter().any(|a| matches!(a, Action::ProbeScript(_))));
    let (more, _) = drive(&mut c, &[ok(), ok(), ok()]);
    assert!(!more.contains(&Action::Park));
}

#[test]
fn failed_adapter_steps_do_not_stop_later_steps() {
    let mut c = BeaconController::new(3);
    let outcomes = [
        Outcome::NotExecuted, // patch not written
        ok(),
        failed(), // power
        ok(),
        failed(), // discoverable
        ok(),
        failed(), // alias
        ok(),
        failed(), // show
    ];
    let (actions, advisories) = drive(&mut c, &outcomes);
    assert_eq!(actions.last(), Some(&Action::ConnectBus));
    assert_eq!(
        advisories,
        vec![
            Advisory::PatchNotWritten,
            Advisory::AdapterStepFailed(AdapterStep::Power),
            Advisory::AdapterStepFailed(AdapterStep::Discoverable),
            Advisory::AdapterStepFailed(AdapterStep::Alias),
            Advisory::AdapterStepFailed(AdapterStep::Show),
        ]
    );
}

#[test]
fn adapter_command_that_cannot_run_is_fatal() {
    let mut c = BeaconController::new(3);
    let (actions, _) = drive(&mut c, &[ok(), ok(), ok(), ok(), Outcome::NotExecuted]);
    assert_eq!(actions.last(), Some(&Action::Abort(FatalError::AdapterUnreachable)));
}

#[test]
fn unrunnable_status_query_leads_to_start() {
    assert!(!is_active(Outcome::NotExecuted));
    assert!(!is_active(failed()));
    assert!(is_active(ok()));
    let mut c = BeaconController::new(3);
    let (actions, advisories) = drive(&mut c, &[ok(), Outcome::NotExecuted, failed()]);
    assert_eq!(
        actions,
        vec![
            Action::WritePatch,
            Action::QueryDaemon,
            Action::StartDaemon,
            Action::RunAdapter(AdapterStep::Power),
        ]
    );
    assert_eq!(advisories, vec![Advisory::DaemonStartRefused]);
}

#[test]
fn start_result_reads_outcome() {
    assert_eq!(start_result(Outcome::NotExecuted), Err(StartError::ExecutionFailed));
    assert_eq!(start_result(failed()), Ok(false));
    assert_eq!(start_result(ok()), Ok(true));
}

#[test]
fn patch_write_never_aborts() {
    assert_eq!(patch_result(ok()), Ok(()));
    assert_eq!(patch_result(failed()), Err(WriteError::NotWritten));
    assert_eq!(patch_result(Outcome::NotExecuted), Err(WriteError::NotWritten));
    for o in [ok(), failed(), Outcome::NotExecuted] {
        let mut c = BeaconController::new(3);
        c.advance(o);
        assert_eq!(c.action(), Action::QueryDaemon);
    }
}

#[test]
fn found_script_is_spawned_and_served() {
    let mut c = BeaconController::new(3);
    let mut outcomes = vec![ok(), ok()];
    outcomes.extend([ok(); 7]);
    outcomes.push(ok()); // bus
    outcomes.extend([failed(), ok()]); // found at the second place
    outcomes.push(ok()); // spawned
    outcomes.push(ok()); // settled
    let (actions, advisories) = drive(&mut c, &outcomes);
    let tail = &actions[actions.len() - 5..];
    assert_eq!(
        tail,
        &[
            Action::ProbeScript(0),
            Action::ProbeScript(1),
            Action::SpawnServer(1),
            Action::Wait(SERVER_SETTLE_MS),
            Action::Park,
        ]
    );
    assert_eq!(SERVER_SETTLE_MS, 1000);
    assert!(advisories.is_empty());
    assert_eq!(c.stage(), Stage::Advertising(GattStatus::Served(1)));
}

#[test]
fn spawn_that_cannot_start_is_fatal() {
    let mut c = BeaconController::new(1);
    let mut outcomes = vec![ok(), ok()];
    outcomes.extend([ok(); 7]);
    outcomes.extend([ok(), ok(), Outcome::NotExecuted]);
    let (actions, _) = drive(&mut c, &outcomes);
    assert_eq!(actions.last(), Some(&Action::Abort(FatalError::SpawnFailed)));
}

#[test]
fn no_candidates_means_no_gatt() {
    let mut c = BeaconController::new(0);
    let mut outcomes = vec![ok(), ok()];
    outcomes.extend([ok(); 7]);
    outcomes.push(ok());
    let (actions, advisories) = drive(&mut c, &outcomes);
    assert_eq!(actions.last(), Some(&Action::Park));
    assert_eq!(advisories, vec![Advisory::GattUnavailable]);
}

#[test]
fn server_exit_degrades_to_advertising_only() {
    let mut c = BeaconController::new(2);
    assert_eq!(c.note_server_exit(), None);
    assert_eq!(c.stage(), Stage::ApplyPatch);
    let mut outcomes = vec![ok(), ok()];
    outcomes.extend([ok(); 7]);
    outcomes.extend([ok(), ok(), ok(), ok()]);
    drive(&mut c, &outcomes);
    assert_eq!(c.stage(), Stage::Advertising(GattStatus::Served(0)));
    assert_eq!(c.note_server_exit(), Some(Advisory::ServerExited));
    assert_eq!(c.stage(), Stage::Advertising(GattStatus::Unavailable));
    assert_eq!(c.note_server_exit(), None);
}

#[test]
fn lifecycle_moves_forward() {
    let mut c = BeaconController::new(3);
    let mut outcomes = vec![ok(), failed(), ok()];
    outcomes.extend([ok(); 7]);
    outcomes.extend([ok(), ok(), ok(), ok()]);
    let order = |s: BeaconState| match s {
        BeaconState::Uninitialized => 0,
        BeaconState::DaemonChecked => 1,
        BeaconState::AdapterConfigured => 2,
        BeaconState::ServiceRegistered => 3,
        BeaconState::Advertising => 4,
        BeaconState::Halted => 5,
    };
    let mut seen = vec![c.state()];
    for o in outcomes {
        c.advance(o);
        seen.push(c.state());
    }
    assert!(seen.windows(2).all(|w| order(w[0]) <= order(w[1])));
    assert!(seen.contains(&BeaconState::ServiceRegistered));
    assert_eq!(c.state(), BeaconState::Advertising);
    assert_eq!(c.candidates(), 3);
}
