//! Laws of the bring-up, stated over whole runs of the controller.

use vstd::prelude::*;
use crate::controller::{
    following, next_stage, probe_from, state_of, AdapterStep, BeaconState, FatalError,
    GattStatus, Stage,
};
use crate::outcome::{succeeded, Outcome};

verus! {

/// The stage reached from `s` when the actions have the outcomes `os`, in order.
pub open spec fn run(s: Stage, os: Seq<Outcome>, n: nat) -> Stage
    decreases os.len(),
{
    if os.len() == 0 {
        s
    } else {
        run(next_stage(s, os[0], n), os.drop_first(), n)
    }
}

/// A stage of the GATT registration: from the bus connection to the settle
/// delay after the server was spawned.
pub open spec fn registering(s: Stage) -> bool {
    ||| s is ConnectBus
    ||| s is ProbeScript
    ||| s is SpawnServer
    ||| s is AwaitServer
}

proof fn lemma_run_append(s: Stage, a: Seq<Outcome>, b: Seq<Outcome>, n: nat)
    ensures
        run(s, a + b, n) == run(run(s, a, n), b, n),
    decreases a.len(),
{
    if a.len() == 0 {
        assert(a + b =~= b);
    } else {
        assert((a + b).drop_first() =~= a.drop_first() + b);
        lemma_run_append(next_stage(s, a[0], n), a.drop_first(), b, n);
    }
}

proof fn lemma_probe_misses(j: nat, misses: Seq<Outcome>, n: nat)
    requires
        n <= usize::MAX,
        j < n,
        j + misses.len() <= n,
        forall|k: int| 0 <= k < misses.len() ==> !succeeded(#[trigger] misses[k]),
    ensures
        run(Stage::ProbeScript(j as usize), misses, n) == probe_from((j + misses.len()) as int, n),
    decreases misses.len(),
{
    if misses.len() > 0 {
        assert(!succeeded(misses[0]));
        let rest = misses.drop_first();
        assert(next_stage(Stage::ProbeScript(j as usize), misses[0], n) == probe_from((j + 1) as int, n));
        assert(run(Stage::ProbeScript(j as usize), misses, n) == run(probe_from((j + 1) as int, n), rest, n));
        assert forall|k: int| 0 <= k < rest.len() implies !succeeded(#[trigger] rest[k]) by {
            assert(rest[k] == misses[k + 1]);
        }
        if j + 1 < n {
            lemma_probe_misses(j + 1, rest, n);
        } else {
            assert(rest.len() == 0);
        }
    }
}

/// The configuration write never aborts the bring-up: whatever its outcome,
/// the daemon query comes next.
pub proof fn patch_never_aborts(o: Outcome, n: nat)
    ensures
        next_stage(Stage::ApplyPatch, o, n) == Stage::QueryDaemon,
{
}

/// A daemon status query that could not be run counts as "not active": the
/// start request comes next, and no failure is raised.
pub proof fn unrunnable_status_query_means_inactive(n: nat)
    ensures
        next_stage(Stage::QueryDaemon, Outcome::NotExecuted, n) == Stage::StartDaemon,
{
}

/// A failed adapter step does not keep the following steps from running:
/// whatever exit status a step had, its settle delay follows and then the next
/// step, or, after the last one, the bus connection.
pub proof fn adapter_failure_continues(k: AdapterStep, success: bool, settled: Outcome, n: nat)
    ensures
        k != AdapterStep::Show ==> next_stage(Stage::Adapter(k), Outcome::Exited { success }, n)
            == Stage::Settle(k),
        k != AdapterStep::Show ==> next_stage(Stage::Settle(k), settled, n) == Stage::Adapter(
            following(k),
        ),
        k == AdapterStep::Show ==> next_stage(Stage::Adapter(k), Outcome::Exited { success }, n)
            == Stage::ConnectBus,
{
}

/// All adapter steps run, in order, whatever their exit statuses: power,
/// discoverable, alias (each with its settle delay) and show lead to the bus
/// connection.
pub proof fn adapter_sequence_completes(
    power: bool,
    discoverable: bool,
    alias: bool,
    show: bool,
    settled: Seq<Outcome>,
    n: nat,
)
    requires
        settled.len() == 3,
    ensures
        run(
            Stage::Adapter(AdapterStep::Power),
            seq![
                Outcome::Exited { success: power },
                settled[0],
                Outcome::Exited { success: discoverable },
                settled[1],
                Outcome::Exited { success: alias },
                settled[2],
                Outcome::Exited { success: show },
            ],
            n,
        ) == Stage::ConnectBus,
{
    let os = seq![
        Outcome::Exited { success: power },
        settled[0],
        Outcome::Exited { success: discoverable },
        settled[1],
        Outcome::Exited { success: alias },
        settled[2],
        Outcome::Exited { success: show },
    ];
    reveal_with_fuel(run, 8);
    assert(os.drop_first() =~= os.subrange(1, 7));
    assert(os.subrange(1, 7).drop_first() =~= os.subrange(2, 7));
    assert(os.subrange(2, 7).drop_first() =~= os.subrange(3, 7));
    assert(os.subrange(3, 7).drop_first() =~= os.subrange(4, 7));
    assert(os.subrange(4, 7).drop_first() =~= os.subrange(5, 7));
    assert(os.subrange(5, 7).drop_first() =~= os.subrange(6, 7));
    assert(os.subrange(6, 7).drop_first() =~= os.subrange(7, 7));
}

/// Registration only fails where the bus cannot be reached: at every stage of
/// it, an outcome halts the bring-up exactly when it is the bus connection that
/// could not be made. A spawn that could not be carried out is left out: it
/// halts the bring-up too.
pub proof fn registration_fails_only_on_bus(s: Stage, o: Outcome, n: nat)
    requires
        registering(s),
        !(s is SpawnServer && o is NotExecuted),
    ensures
        next_stage(s, o, n) is Halted <==> (s is ConnectBus && o is NotExecuted),
{
}

/// Registration degrades gracefully: once the bus is connected, when none of
/// the `n` places of the search order holds the server script, the beacon
/// advertises without a GATT service.
pub proof fn registration_degrades_without_script(bus: bool, probes: Seq<Outcome>, n: nat)
    requires
        n <= usize::MAX,
        probes.len() == n,
        forall|k: int| 0 <= k < probes.len() ==> !succeeded(#[trigger] probes[k]),
    ensures
        run(Stage::ConnectBus, seq![Outcome::Exited { success: bus }] + probes, n)
            == Stage::Advertising(GattStatus::Unavailable),
{
    let os = seq![Outcome::Exited { success: bus }] + probes;
    assert(os.drop_first() =~= probes);
    assert(run(Stage::ConnectBus, os, n) == run(probe_from(0, n), probes, n));
    if n > 0 {
        lemma_probe_misses(0, probes, n);
    }
}

/// Registration succeeds when the server script is found and launched: with
/// the bus connected, the first place of the search order that holds the
/// script (index `i`) is the one spawned, and after its settle delay the
/// beacon advertises with the GATT service it serves.
pub proof fn registration_serves_found_script(
    bus: bool,
    misses: Seq<Outcome>,
    spawned: bool,
    settled: Outcome,
    n: nat,
)
    requires
        n <= usize::MAX,
        misses.len() < n,
        forall|k: int| 0 <= k < misses.len() ==> !succeeded(#[trigger] misses[k]),
    ensures
        run(
            Stage::ConnectBus,
            seq![Outcome::Exited { success: bus }] + misses + seq![
                Outcome::Exited { success: true },
                Outcome::Exited { success: spawned },
                settled,
            ],
            n,
        ) == Stage::Advertising(GattStatus::Served(misses.len() as usize)),
{
    let head = seq![Outcome::Exited { success: bus }];
    let tail = seq![Outcome::Exited { success: true }, Outcome::Exited { success: spawned }, settled];
    let os = head + misses + tail;
    assert(os.drop_first() =~= misses + tail);
    lemma_probe_misses(0, misses, n);
    lemma_run_append(Stage::ProbeScript(0), misses, tail, n);
    reveal_with_fuel(run, 4);
    assert(tail.drop_first().drop_first().drop_first() =~= Seq::<Outcome>::empty());
}

/// A halted bring-up stays halted: the process terminates abnormally and never
/// parks in the run-loop.
pub proof fn halted_never_parks(e: FatalError, os: Seq<Outcome>, n: nat)
    ensures
        run(Stage::Halted(e), os, n) == Stage::Halted(e),
        state_of(run(Stage::Halted(e), os, n)) == BeaconState::Halted,
    decreases os.len(),
{
    if os.len() > 0 {
        halted_never_parks(e, os.drop_first(), n);
    }
}

} // verus!
