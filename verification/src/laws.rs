//! What holds of every start attempt, whatever is reported to it.

use vstd::prelude::*;
use crate::assembly::{
    assembly_plan, assembly_step_keeps_valid, AssemblyAction, AssemblyEvent, AssemblyRun,
};
use crate::error::ServiceError;
use crate::orchestrator::{
    attempts, driver_start, result_at, step_keeps_valid, Action, Event, Run, Stage,
};
use crate::role::{role_of_flag, ConfiguredRole, Role};
use crate::wiring::{handed_back, needs, part_needs, part_yields, supplied, yields, Component};

verus! {

/// Whether an action starts one of the two drivers.
pub open spec fn starts_driver(action: Action) -> bool {
    action is StartCollator || action is StartFullNode
}

/// Whether `action` stands at exactly one place of `performed`.
pub open spec fn performed_once(performed: Seq<Action>, action: Action) -> bool {
    exists|k: int|
        0 <= k < performed.len() && #[trigger] performed[k] == action && forall|j: int|
            0 <= j < performed.len() && #[trigger] performed[j] == action ==> j == k
}

/// The attempt that a configuration opens is valid.
pub proof fn begin_is_valid(configured: ConfiguredRole, validator: bool, para_id: u32)
    ensures
        Run::begin(configured, validator, para_id).valid(),
        Run::begin(configured, validator, para_id).role == role_of_flag(validator),
{
    let run = Run::begin(configured, validator, para_id);
    assert(run.plan().take(0) =~= Seq::<Action>::empty());
}

/// A valid attempt stays valid under every series of reports, and keeps the
/// role and the parachain it began with.
pub proof fn replay_keeps_valid(run: Run, events: Seq<Event>)
    requires
        run.valid(),
    ensures
        run.replay(events).valid(),
        run.replay(events).role == run.role,
        run.replay(events).para_id == run.para_id,
    decreases events.len(),
{
    if events.len() > 0 {
        replay_keeps_valid(run, events.drop_last());
        step_keeps_valid(run.replay(events.drop_last()), events.last());
    }
}

/// A light client is turned away with `ConfigurationError` before any action
/// is performed, and no report brings its attempt back to life.
pub proof fn light_client_performs_nothing(validator: bool, para_id: u32, events: Seq<Event>)
    ensures
        Run::begin(ConfiguredRole::Light, validator, para_id).replay(events).stage
            == Stage::Failed(ServiceError::ConfigurationError),
        Run::begin(ConfiguredRole::Light, validator, para_id).replay(events).performed.len() == 0,
    decreases events.len(),
{
    if events.len() > 0 {
        light_client_performs_nothing(validator, para_id, events.drop_last());
    }
}

/// An attempt that has ended, in success or in failure, takes no further
/// report: nothing is retried and no stage is left again.
pub proof fn ended_attempt_takes_no_report(run: Run, event: Event)
    requires
        result_at(run.stage) is Some,
    ensures
        !run.accepts(event),
        run.step(event) == run,
{
}

/// The reports of a start in which every action succeeds.
pub open spec fn all_succeed(role: Role) -> Seq<Event> {
    seq![
        Event::Assembled,
        Event::NetworkBuilt,
        Event::RpcBuilt,
        Event::TasksSpawned,
        match role {
            Role::ValidatorCollator => Event::CollatorStarted,
            Role::SyncingFullNode => Event::FullNodeStarted,
        },
        Event::NetworkActivated,
    ]
}

/// Where every action succeeds, a node that is no light client comes to
/// `NetworkActive`, having performed the whole plan of its role and nothing
/// else.
pub proof fn success_reaches_network_active(
    configured: ConfiguredRole,
    validator: bool,
    para_id: u32,
)
    requires
        !(configured is Light),
    ensures
        ({
            let opened = Run::begin(configured, validator, para_id);
            let ended = opened.replay(all_succeed(role_of_flag(validator)));
            &&& ended.stage is NetworkActive
            &&& ended.performed == opened.plan()
            &&& result_at(ended.stage) == Some(Ok::<(), ServiceError>(()))
        }),
{
    let opened = Run::begin(configured, validator, para_id);
    let ended = opened.replay(all_succeed(role_of_flag(validator)));
    assert(ended.stage is NetworkActive) by {
        reveal_with_fuel(Run::replay, 7);
    }
    begin_is_valid(configured, validator, para_id);
    replay_keeps_valid(opened, all_succeed(role_of_flag(validator)));
    assert(ended.performed =~= opened.plan());
}

/// An attempt never gets stuck: while an action is pending, there is a
/// report that ends it.
pub proof fn pending_action_can_end(run: Run)
    requires
        run.pending() is Some,
    ensures
        exists|event: Event| #[trigger] run.accepts(event),
{
    let event = match run.stage {
        Stage::Idle => Event::Assembled,
        Stage::Assembling => Event::NetworkBuilt,
        Stage::NetworkReady => Event::RpcBuilt,
        Stage::RpcReady => Event::TasksSpawned,
        Stage::TasksSpawned => match run.role {
            Role::ValidatorCollator => Event::CollatorStarted,
            Role::SyncingFullNode => Event::FullNodeStarted,
        },
        _ => Event::NetworkActivated,
    };
    assert(run.accepts(event));
}

/// Whether `error` is an error with which `action` can fail. Registering
/// the RPC method groups and activating the network cannot fail.
pub open spec fn fails_with(action: Action, error: ServiceError) -> bool {
    match action {
        Action::Assemble => error is StorageInitError || error is ImportQueueInitError,
        Action::BuildNetwork => error is NetworkError,
        Action::BuildRpc => false,
        Action::SpawnTasks => error is SpawnError,
        Action::StartCollator { .. } => error is CollatorStartError,
        Action::StartFullNode { .. } => error is FullNodeStartError,
        Action::ActivateNetwork => false,
    }
}

/// An attempt fails fast: its error is an error of the last action that was
/// performed, so nothing was performed after the action that failed. The
/// one error without an action is that of the unsupported role.
pub proof fn failure_ends_the_attempt_at_once(run: Run, error: ServiceError)
    requires
        run.valid(),
        run.stage == Stage::Failed(error),
    ensures
        run.pending() is None,
        error is ConfigurationError <==> run.performed.len() == 0,
        run.performed.len() > 0 ==> fails_with(run.performed.last(), error),
{
}

/// The stages are walked in one direction: a report that is taken ends
/// exactly one more action, the pending one, and either reaches the next
/// stage or ends the attempt with an error.
pub proof fn stages_move_forward(run: Run, event: Event)
    requires
        run.accepts(event),
    ensures
        attempts(run.step(event).stage) == attempts(run.stage) + 1,
        run.pending() is Some,
        run.step(event).performed == run.performed.push(run.pending().unwrap()),
{
}

/// No action is performed twice in one attempt. In particular the partial
/// components, and with them the client, are built at most once.
pub proof fn no_action_is_repeated(run: Run)
    requires
        run.valid(),
    ensures
        run.performed.no_duplicates(),
{
}

/// The network is activated only after the service tasks were spawned and
/// the driver of the role was started, in that order. The activation is
/// asked for at `RoleStarted` and nowhere else, so the driver has fixed the
/// predicate of the block-announce validator before any traffic flows. It is
/// the last action of an attempt, and the stage is `NetworkActive` exactly
/// when it was performed.
pub proof fn activation_follows_spawn_and_driver(run: Run)
    requires
        run.valid(),
    ensures
        run.pending() == Some(Action::ActivateNetwork) <==> run.stage is RoleStarted,
        forall|k: int|
            0 <= k < run.performed.len() && #[trigger] run.performed[k] is ActivateNetwork
                ==> k == run.performed.len() - 1 && exists|i: int, j: int|
                0 <= i < j < k && #[trigger] run.performed[i] is SpawnTasks
                    && #[trigger] run.performed[j] == driver_start(run.role, run.para_id),
        run.stage is NetworkActive <==> run.performed.contains(Action::ActivateNetwork),
        run.stage is NetworkActive ==> run.performed == run.plan(),
{
    let plan = run.plan();
    assert forall|k: int|
        0 <= k < run.performed.len() && #[trigger] run.performed[k] is ActivateNetwork implies k
        == run.performed.len() - 1 && exists|i: int, j: int|
        0 <= i < j < k && #[trigger] run.performed[i] is SpawnTasks
            && #[trigger] run.performed[j] == driver_start(run.role, run.para_id) by {
        assert(k == 5);
        assert(run.performed[3] is SpawnTasks);
        assert(run.performed[4] == driver_start(run.role, run.para_id));
    }
    if run.stage is NetworkActive {
        assert(run.performed =~= plan);
        assert(run.performed[5] == Action::ActivateNetwork);
    }
}

/// At most one driver is started in an attempt, and it is the driver of the
/// attempt's role: the collator for a validator, the full node otherwise.
/// Once the attempt has come to its driver, that driver was started exactly
/// once, also where it then failed: no role is exchanged for the other.
pub proof fn one_driver_per_attempt(run: Run)
    requires
        run.valid(),
    ensures
        forall|k: int|
            0 <= k < run.performed.len() && starts_driver(#[trigger] run.performed[k])
                ==> run.performed[k] == driver_start(run.role, run.para_id),
        forall|i: int, j: int|
            0 <= i < run.performed.len() && 0 <= j < run.performed.len() && starts_driver(
                #[trigger] run.performed[i],
            ) && starts_driver(#[trigger] run.performed[j]) ==> i == j,
        attempts(run.stage) >= 5 ==> performed_once(
            run.performed,
            driver_start(run.role, run.para_id),
        ),
        attempts(run.stage) < 5 ==> forall|k: int|
            0 <= k < run.performed.len() ==> !starts_driver(#[trigger] run.performed[k]),
{
    if attempts(run.stage) >= 5 {
        assert(run.performed[4] == driver_start(run.role, run.para_id));
    }
}

/// Which driver an attempt starts is decided by the validator flag alone:
/// with the flag set the collator is started and never the full node, with
/// the flag clear the full node and never the collator, whatever is
/// reported and whatever else the node is configured with. An attempt that
/// reaches `RoleStarted` or `NetworkActive` has started its driver exactly
/// once.
pub proof fn driver_follows_validator_flag(
    configured: ConfiguredRole,
    validator: bool,
    para_id: u32,
    events: Seq<Event>,
)
    ensures
        ({
            let run = Run::begin(configured, validator, para_id).replay(events);
            &&& validator ==> forall|k: int|
                0 <= k < run.performed.len() ==> !(#[trigger] run.performed[k] is StartFullNode)
            &&& !validator ==> forall|k: int|
                0 <= k < run.performed.len() ==> !(#[trigger] run.performed[k] is StartCollator)
            &&& run.stage is RoleStarted || run.stage is NetworkActive ==> performed_once(
                run.performed,
                if validator {
                    Action::StartCollator { para_id }
                } else {
                    Action::StartFullNode { para_id }
                },
            )
        }),
{
    let opened = Run::begin(configured, validator, para_id);
    begin_is_valid(configured, validator, para_id);
    replay_keeps_valid(opened, events);
    one_driver_per_attempt(opened.replay(events));
}

/// Whatever the pending action is given has come into being: the caller
/// brought it along, or an action performed before has left it behind.
pub proof fn pending_action_has_what_it_needs(run: Run, component: Component)
    requires
        run.valid(),
        run.pending() is Some,
        needs(run.pending().unwrap()).contains(component),
    ensures
        supplied(component) || exists|i: int|
            0 <= i < run.performed.len() && yields(#[trigger] run.performed[i]).contains(
                component,
            ),
{
    if !supplied(component) {
        if yields(Action::Assemble).contains(component) {
            assert(run.performed[0] == Action::Assemble);
        } else if yields(Action::BuildNetwork).contains(component) {
            assert(run.performed[1] == Action::BuildNetwork);
        } else {
            assert(run.performed[2] == Action::BuildRpc);
        }
    }
}

/// No component comes into being twice in one attempt. In particular there
/// is one client, the one of the assembly, and everything that is given a
/// client is given that one.
pub proof fn components_are_built_once(run: Run, component: Component, i: int, j: int)
    requires
        run.valid(),
        0 <= i < run.performed.len(),
        0 <= j < run.performed.len(),
        yields(run.performed[i]).contains(component),
        yields(run.performed[j]).contains(component),
    ensures
        i == j,
        component is Client ==> run.performed[i] is Assemble,
{
}

/// A start that succeeded has built what it hands back to the caller: the
/// scheduler and the client.
pub proof fn success_hands_back_scheduler_and_client(run: Run, component: Component)
    requires
        run.valid(),
        run.stage is NetworkActive,
        handed_back().contains(component),
    ensures
        exists|i: int|
            0 <= i < run.performed.len() && yields(#[trigger] run.performed[i]).contains(
                component,
            ),
{
    assert(run.performed[0] == Action::Assemble);
}

/// A valid assembly stays valid under every series of reports.
pub proof fn assembly_replay_keeps_valid(run: AssemblyRun, events: Seq<AssemblyEvent>)
    requires
        run.valid(),
    ensures
        run.replay(events).valid(),
    decreases events.len(),
{
    if events.len() > 0 {
        assembly_replay_keeps_valid(run, events.drop_last());
        assembly_step_keeps_valid(run.replay(events.drop_last()), events.last());
    }
}

/// An assembly opens the storage at most once, and before anything else:
/// the pool and the import queue are built on the client that came with it,
/// and no second client is ever made. No part is built twice, and a
/// complete assembly has built every part.
pub proof fn assembly_builds_one_client(run: AssemblyRun)
    requires
        run.valid(),
    ensures
        run.performed.no_duplicates(),
        forall|k: int|
            0 <= k < run.performed.len() && part_yields(#[trigger] run.performed[k]).contains(
                Component::Client,
            ) ==> k == 0,
        forall|k: int|
            0 <= k < run.performed.len() && part_needs(#[trigger] run.performed[k]).contains(
                Component::Client,
            ) ==> k > 0 && run.performed[0] is OpenStorage,
        run.stage is Complete ==> run.performed == assembly_plan(),
{
    if run.stage is Complete {
        assert(run.performed =~= assembly_plan());
    }
}

/// Whatever the pending part of an assembly is given has come into being:
/// the caller brought it along, or a part built before has left it behind.
pub proof fn pending_part_has_what_it_needs(run: AssemblyRun, component: Component)
    requires
        run.valid(),
        run.pending() is Some,
        part_needs(run.pending().unwrap()).contains(component),
    ensures
        supplied(component) || exists|i: int|
            0 <= i < run.performed.len() && part_yields(#[trigger] run.performed[i]).contains(
                component,
            ),
{
    if !supplied(component) {
        assert(run.performed[0] == AssemblyAction::OpenStorage);
    }
}

/// The assembly as one action of the startup and the assembly part by part
/// agree: between them the parts leave behind exactly what the action
/// leaves behind, and the action is given exactly what some part is given
/// and no part builds.
pub proof fn assembly_agrees_with_its_parts(component: Component)
    ensures
        yields(Action::Assemble).contains(component) <==> exists|k: int|
            0 <= k < assembly_plan().len() && part_yields(#[trigger] assembly_plan()[k]).contains(
                component,
            ),
        needs(Action::Assemble).contains(component) <==> supplied(component) && exists|k: int|
            0 <= k < assembly_plan().len() && part_needs(#[trigger] assembly_plan()[k]).contains(
                component,
            ),
{
    let plan = assembly_plan();
    if yields(Action::Assemble).contains(component) {
        if part_yields(AssemblyAction::OpenStorage).contains(component) {
            assert(part_yields(plan[0]).contains(component));
        } else if part_yields(AssemblyAction::BuildPool).contains(component) {
            assert(part_yields(plan[1]).contains(component));
        } else {
            assert(part_yields(plan[2]).contains(component));
        }
    }
    if needs(Action::Assemble).contains(component) {
        assert(part_needs(plan[1]).contains(component));
    }
}

} // verus!
