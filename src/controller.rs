//! The beacon lifecycle controller: a state machine from the outcome of the
//! last action to the next action.
//!
//! The bring-up runs, strictly in this order: write the configuration
//! fragment, query the daemon, start it if it is not active, power the adapter,
//! make it discoverable, set its alias (each followed by a settle delay), show
//! the adapter, connect to the system bus, locate the GATT server script along
//! the search order, spawn it and let it settle, then park. Failures that leave
//! the beacon discoverable are reported as advisories and the sequence goes on;
//! only an action that could not be carried out at all where it is a hard
//! precondition halts it.

use vstd::prelude::*;
use crate::outcome::{is_active, patch_result, start_result, succeeded, Outcome};

verus! {

/// Wait after each adapter step, in milliseconds.
pub const ADAPTER_SETTLE_MS: u64 = 500;

/// Wait after the GATT server was spawned, in milliseconds.
pub const SERVER_SETTLE_MS: u64 = 1000;

/// The steps run against the adapter control interface, in this order.
#[derive(Clone, Copy, Debug, PartialEq, Eq, Structural)]
pub enum AdapterStep {
    Power,
    Discoverable,
    Alias,
    Show,
}

/// The step that follows `k`; `Show` is the last.
pub open spec fn following(k: AdapterStep) -> AdapterStep {
    match k {
        AdapterStep::Power => AdapterStep::Discoverable,
        AdapterStep::Discoverable => AdapterStep::Alias,
        AdapterStep::Alias => AdapterStep::Show,
        AdapterStep::Show => AdapterStep::Show,
    }
}

impl AdapterStep {
    /// The step that follows this one; `Show` is followed by no adapter step.
    pub fn following(&self) -> (r: AdapterStep)
        ensures
            r == following(*self),
    {
        match self {
            AdapterStep::Power => AdapterStep::Discoverable,
            AdapterStep::Discoverable => AdapterStep::Alias,
            AdapterStep::Alias => AdapterStep::Show,
            AdapterStep::Show => AdapterStep::Show,
        }
    }
}

/// Whether the beacon serves its GATT service.
#[derive(Clone, Copy, Debug, PartialEq, Eq, Structural)]
pub enum GattStatus {
    /// Served by the server script found at this index of the search order.
    Served(usize),
    /// No server runs: the device is discoverable through advertising alone.
    Unavailable,
}

/// A failure that makes the beacon's primary function impossible.
#[derive(Clone, Copy, Debug, PartialEq, Eq, Structural)]
pub enum FatalError {
    /// The daemon was inactive and the start command could not be invoked.
    DaemonStartFailed,
    /// A command of the adapter control interface could not be run.
    AdapterUnreachable,
    /// The system bus could not be reached.
    BusUnreachable,
    /// The GATT server process could not be created.
    SpawnFailed,
}

/// A failure that is reported and then passed over.
#[derive(Clone, Copy, Debug, PartialEq, Eq, Structural)]
pub enum Advisory {
    /// The configuration fragment was not written.
    PatchNotWritten,
    /// The start command ran and exited non-zero.
    DaemonStartRefused,
    /// An adapter command ran and exited non-zero.
    AdapterStepFailed(AdapterStep),
    /// No GATT server script was found along the search order.
    GattUnavailable,
    /// The GATT server process exited after it was spawned.
    ServerExited,
}

/// Where the bring-up stands: the action it waits on, or its end.
#[derive(Clone, Copy, Debug, PartialEq, Eq, Structural)]
pub enum Stage {
    ApplyPatch,
    QueryDaemon,
    StartDaemon,
    Adapter(AdapterStep),
    Settle(AdapterStep),
    ConnectBus,
    ProbeScript(usize),
    SpawnServer(usize),
    AwaitServer(usize),
    Advertising(GattStatus),
    Halted(FatalError),
}

/// What the caller is to do next.
#[derive(Clone, Copy, Debug, PartialEq, Eq, Structural)]
pub enum Action {
    /// Write the configuration fragment.
    WritePatch,
    /// Ask the service manager whether the daemon is active.
    QueryDaemon,
    /// Ask the service manager, with privilege, to start the daemon.
    StartDaemon,
    /// Run this step against the adapter control interface.
    RunAdapter(AdapterStep),
    /// Block for this many milliseconds.
    Wait(u64),
    /// Connect to the system bus.
    ConnectBus,
    /// Tell whether the script at this index of the search order exists.
    ProbeScript(usize),
    /// Spawn the GATT server with the script at this index of the search order.
    SpawnServer(usize),
    /// Setup is over: keep the process alive until it is terminated.
    Park,
    /// Setup failed: terminate abnormally with this error.
    Abort(FatalError),
}

/// The coarse lifecycle of the beacon, which only moves forward.
#[derive(Clone, Copy, Debug, PartialEq, Eq, Structural)]
pub enum BeaconState {
    Uninitialized,
    DaemonChecked,
    AdapterConfigured,
    ServiceRegistered,
    Advertising,
    Halted,
}

/// The action that the caller is to carry out at stage `s`.
pub open spec fn action_of(s: Stage) -> Action {
    match s {
        Stage::ApplyPatch => Action::WritePatch,
        Stage::QueryDaemon => Action::QueryDaemon,
        Stage::StartDaemon => Action::StartDaemon,
        Stage::Adapter(k) => Action::RunAdapter(k),
        Stage::Settle(_) => Action::Wait(ADAPTER_SETTLE_MS),
        Stage::ConnectBus => Action::ConnectBus,
        Stage::ProbeScript(i) => Action::ProbeScript(i),
        Stage::SpawnServer(i) => Action::SpawnServer(i),
        Stage::AwaitServer(_) => Action::Wait(SERVER_SETTLE_MS),
        Stage::Advertising(_) => Action::Park,
        Stage::Halted(e) => Action::Abort(e),
    }
}

/// The first stage of the search for the server script among `n` candidates.
pub open spec fn probe_from(i: int, n: nat) -> Stage {
    if i < n {
        Stage::ProbeScript(i as usize)
    } else {
        Stage::Advertising(GattStatus::Unavailable)
    }
}

/// The stage after `s` when its action had outcome `o`, with `n` candidates
/// for the server script.
pub open spec fn next_stage(s: Stage, o: Outcome, n: nat) -> Stage {
    match s {
        Stage::ApplyPatch => Stage::QueryDaemon,
        Stage::QueryDaemon => if succeeded(o) {
            Stage::Adapter(AdapterStep::Power)
        } else {
            Stage::StartDaemon
        },
        Stage::StartDaemon => if o is NotExecuted {
            Stage::Halted(FatalError::DaemonStartFailed)
        } else {
            Stage::Adapter(AdapterStep::Power)
        },
        Stage::Adapter(k) => if o is NotExecuted {
            Stage::Halted(FatalError::AdapterUnreachable)
        } else if k == AdapterStep::Show {
            Stage::ConnectBus
        } else {
            Stage::Settle(k)
        },
        Stage::Settle(k) => Stage::Adapter(following(k)),
        Stage::ConnectBus => if o is NotExecuted {
            Stage::Halted(FatalError::BusUnreachable)
        } else {
            probe_from(0, n)
        },
        Stage::ProbeScript(i) => if succeeded(o) {
            Stage::SpawnServer(i)
        } else {
            probe_from(i + 1, n)
        },
        Stage::SpawnServer(i) => if o is NotExecuted {
            Stage::Halted(FatalError::SpawnFailed)
        } else {
            Stage::AwaitServer(i)
        },
        Stage::AwaitServer(i) => Stage::Advertising(GattStatus::Served(i)),
        Stage::Advertising(g) => Stage::Advertising(g),
        Stage::Halted(e) => Stage::Halted(e),
    }
}

/// The advisory reported when the action of stage `s` had outcome `o`.
pub open spec fn advisory_of(s: Stage, o: Outcome, n: nat) -> Option<Advisory> {
    match s {
        Stage::ApplyPatch => if succeeded(o) {
            None
        } else {
            Some(Advisory::PatchNotWritten)
        },
        Stage::StartDaemon => if o == (Outcome::Exited { success: false }) {
            Some(Advisory::DaemonStartRefused)
        } else {
            None
        },
        Stage::Adapter(k) => if o == (Outcome::Exited { success: false }) {
            Some(Advisory::AdapterStepFailed(k))
        } else {
            None
        },
        Stage::ConnectBus => if o is Exited && n == 0 {
            Some(Advisory::GattUnavailable)
        } else {
            None
        },
        Stage::ProbeScript(i) => if !succeeded(o) && i + 1 >= n {
            Some(Advisory::GattUnavailable)
        } else {
            None
        },
        _ => None,
    }
}

/// The beacon advertises with a GATT service.
pub open spec fn serving(s: Stage) -> bool {
    s matches Stage::Advertising(GattStatus::Served(_))
}

/// The lifecycle state of stage `s`.
pub open spec fn state_of(s: Stage) -> BeaconState {
    match s {
        Stage::ApplyPatch | Stage::QueryDaemon | Stage::StartDaemon => BeaconState::Uninitialized,
        Stage::Adapter(_) | Stage::Settle(_) => BeaconState::DaemonChecked,
        Stage::ConnectBus | Stage::ProbeScript(_) | Stage::SpawnServer(_) => BeaconState::AdapterConfigured,
        Stage::AwaitServer(_) => BeaconState::ServiceRegistered,
        Stage::Advertising(_) => BeaconState::Advertising,
        Stage::Halted(_) => BeaconState::Halted,
    }
}

/// The position of a lifecycle state in its forward order.
pub open spec fn rank(b: BeaconState) -> nat {
    match b {
        BeaconState::Uninitialized => 0,
        BeaconState::DaemonChecked => 1,
        BeaconState::AdapterConfigured => 2,
        BeaconState::ServiceRegistered => 3,
        BeaconState::Advertising => 4,
        BeaconState::Halted => 5,
    }
}

/// Every index that stage `s` holds names one of `n` candidates.
pub open spec fn stage_in_bounds(s: Stage, n: nat) -> bool {
    match s {
        Stage::ProbeScript(i) | Stage::SpawnServer(i) | Stage::AwaitServer(i) => i < n,
        Stage::Advertising(GattStatus::Served(i)) => i < n,
        _ => true,
    }
}

/// Drives the bring-up of the beacon, one action at a time.
pub struct BeaconController {
    stage: Stage,
    candidates: usize,
}

impl BeaconController {
    /// The stage the bring-up stands at.
    pub closed spec fn stage_spec(&self) -> Stage {
        self.stage
    }

    /// How many candidate paths the search for the server script tries.
    pub closed spec fn candidates_spec(&self) -> nat {
        self.candidates as nat
    }

    /// Well-formedness: the stage only names existing candidates.
    pub open spec fn wf(&self) -> bool {
        stage_in_bounds(self.stage_spec(), self.candidates_spec())
    }

    /// A controller at the start of the bring-up, which looks for the server
    /// script at `candidates` places of its search order.
    pub fn new(candidates: usize) -> (r: BeaconController)
        ensures
            r.wf(),
            r.stage_spec() == Stage::ApplyPatch,
            r.candidates_spec() == candidates,
    {
        BeaconController { stage: Stage::ApplyPatch, candidates }
    }

    /// The stage the bring-up stands at.
    pub fn stage(&self) -> (r: Stage)
        ensures
            r == self.stage_spec(),
    {
        self.stage
    }

    /// How many candidate paths the search for the server script tries.
    pub fn candidates(&self) -> (r: usize)
        ensures
            r == self.candidates_spec(),
    {
        self.candidates
    }

    /// The action that the caller is to carry out now.
    pub fn action(&self) -> (r: Action)
        ensures
            r == action_of(self.stage_spec()),
    {
        match self.stage {
            Stage::ApplyPatch => Action::WritePatch,
            Stage::QueryDaemon => Action::QueryDaemon,
            Stage::StartDaemon => Action::StartDaemon,
            Stage::Adapter(k) => Action::RunAdapter(k),
            Stage::Settle(_) => Action::Wait(ADAPTER_SETTLE_MS),
            Stage::ConnectBus => Action::ConnectBus,
            Stage::ProbeScript(i) => Action::ProbeScript(i),
            Stage::SpawnServer(i) => Action::SpawnServer(i),
            Stage::AwaitServer(_) => Action::Wait(SERVER_SETTLE_MS),
            Stage::Advertising(_) => Action::Park,
            Stage::Halted(e) => Action::Abort(e),
        }
    }

    /// The coarse lifecycle state of the bring-up.
    pub fn state(&self) -> (r: BeaconState)
        ensures
            r == state_of(self.stage_spec()),
    {
        match self.stage {
            Stage::ApplyPatch | Stage::QueryDaemon | Stage::StartDaemon => BeaconState::Uninitialized,
            Stage::Adapter(_) | Stage::Settle(_) => BeaconState::DaemonChecked,
            Stage::ConnectBus | Stage::ProbeScript(_) | Stage::SpawnServer(_) => BeaconState::AdapterConfigured,
            Stage::AwaitServer(_) => BeaconState::ServiceRegistered,
            Stage::Advertising(_) => BeaconState::Advertising,
            Stage::Halted(_) => BeaconState::Halted,
        }
    }

    fn probe_from(i: usize, n: usize) -> (r: Stage)
        ensures
            r == probe_from(i as int, n as nat),
    {
        if i < n {
            Stage::ProbeScript(i)
        } else {
            Stage::Advertising(GattStatus::Unavailable)
        }
    }

    /// Records that the GATT server process was seen to have exited while the
    /// beacon advertises. The exit is surfaced as a degradation: the beacon
    /// goes on advertising without a GATT service, and no restart is tried.
    /// At any other stage nothing changes.
    pub fn note_server_exit(&mut self) -> (r: Option<Advisory>)
        requires
            old(self).wf(),
        ensures
            final(self).wf(),
            final(self).candidates_spec() == old(self).candidates_spec(),
            serving(old(self).stage_spec()) ==> {
                &&& final(self).stage_spec() == Stage::Advertising(GattStatus::Unavailable)
                &&& r == Some(Advisory::ServerExited)
            },
            !(serving(old(self).stage_spec())) ==> {
                &&& final(self).stage_spec() == old(self).stage_spec()
                &&& r is None
            },
    {
        match self.stage {
            Stage::Advertising(GattStatus::Served(_)) => {
                self.stage = Stage::Advertising(GattStatus::Unavailable);
                Some(Advisory::ServerExited)
            },
            _ => None,
        }
    }

    /// Takes the outcome of the current action, moves to the next stage and
    /// returns the advisory to report, if any. At the end of the bring-up the
    /// stage no longer changes.
    pub fn advance(&mut self, o: Outcome) -> (r: Option<Advisory>)
        requires
            old(self).wf(),
        ensures
            final(self).wf(),
            final(self).candidates_spec() == old(self).candidates_spec(),
            final(self).stage_spec() == next_stage(old(self).stage_spec(), o, old(self).candidates_spec()),
            r == advisory_of(old(self).stage_spec(), o, old(self).candidates_spec()),
            rank(state_of(old(self).stage_spec())) <= rank(state_of(final(self).stage_spec())),
    {
        let n = self.candidates;
        let (next, advisory) = match self.stage {
            Stage::ApplyPatch => {
                let advisory = match patch_result(o) {
                    Ok(()) => None,
                    Err(_) => Some(Advisory::PatchNotWritten),
                };
                (Stage::QueryDaemon, advisory)
            },
            Stage::QueryDaemon => {
                if is_active(o) {
                    (Stage::Adapter(AdapterStep::Power), None)
                } else {
                    (Stage::StartDaemon, None)
                }
            },
            Stage::StartDaemon => match start_result(o) {
                Err(_) => (Stage::Halted(FatalError::DaemonStartFailed), None),
                Ok(true) => (Stage::Adapter(AdapterStep::Power), None),
                Ok(false) => (Stage::Adapter(AdapterStep::Power), Some(Advisory::DaemonStartRefused)),
            },
            Stage::Adapter(k) => match o {
                Outcome::NotExecuted => (Stage::Halted(FatalError::AdapterUnreachable), None),
                Outcome::Exited { success } => {
                    let next = match k {
                        AdapterStep::Show => Stage::ConnectBus,
                        _ => Stage::Settle(k),
                    };
                    if success {
                        (next, None)
                    } else {
                        (next, Some(Advisory::AdapterStepFailed(k)))
                    }
                },
            },
            Stage::Settle(k) => (Stage::Adapter(k.following()), None),
            Stage::ConnectBus => match o {
                Outcome::NotExecuted => (Stage::Halted(FatalError::BusUnreachable), None),
                Outcome::Exited { .. } => {
                    if n == 0 {
                        (Stage::Advertising(GattStatus::Unavailable), Some(Advisory::GattUnavailable))
                    } else {
                        (Stage::ProbeScript(0), None)
                    }
                },
            },
            Stage::ProbeScript(i) => {
                if o.succeeded() {
                    (Stage::SpawnServer(i), None)
                } else if i + 1 < n {
                    (Stage::ProbeScript(i + 1), None)
                } else {
                    (Stage::Advertising(GattStatus::Unavailable), Some(Advisory::GattUnavailable))
                }
            },
            Stage::SpawnServer(i) => match o {
                Outcome::NotExecuted => (Stage::Halted(FatalError::SpawnFailed), None),
                Outcome::Exited { .. } => (Stage::AwaitServer(i), None),
            },
            Stage::AwaitServer(i) => (Stage::Advertising(GattStatus::Served(i)), None),
            Stage::Advertising(g) => (Stage::Advertising(g), None),
            Stage::Halted(e) => (Stage::Halted(e), None),
        };
        self.stage = next;
        advisory
    }
}

} // verus!
