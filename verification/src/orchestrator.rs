//! The startup sequence of a node, as a machine that is told what happened
//! and says what to do next.
//!
//! A start attempt walks through the stages in one direction only. At every
//! stage but the last exactly one action is pending. The caller performs it
//! and reports the event that ended it; the machine moves on, or ends the
//! attempt with the error that belongs to the failed action.

use vstd::prelude::*;
use crate::config::NodeConfiguration;
use crate::error::{AssemblyError, ServiceError};
use crate::informant::{Chain, OutputFormat};
use crate::role::{role_of_flag, select_role, selected_role, ConfiguredRole, Role};

verus! {

/// How far a start attempt has come.
#[derive(Clone, Copy, Debug, PartialEq, Eq, Structural)]
pub enum Stage {
    /// Nothing has been built.
    Idle,
    /// The partial components stand: client, backend, keystore, scheduler,
    /// transaction pool and import queue.
    Assembling,
    /// The network is wired but carries no traffic.
    NetworkReady,
    /// The RPC surface is registered.
    RpcReady,
    /// The service tasks are handed to the scheduler.
    TasksSpawned,
    /// The collator or the full node runs, and has fixed the predicate of
    /// the block-announce validator.
    RoleStarted,
    /// The network carries traffic. The attempt has succeeded.
    NetworkActive,
    /// The attempt has ended with this error.
    Failed(ServiceError),
}

/// What the caller is asked to do.
#[derive(Clone, Copy, Debug, PartialEq, Eq, Structural)]
pub enum Action {
    /// Build the partial components.
    Assemble,
    /// Build the network, with the delayed block-announce validator wired in.
    /// The network must stay silent until `ActivateNetwork`.
    BuildNetwork,
    /// Register the RPC method groups.
    BuildRpc,
    /// Hand network, RPC and maintenance tasks to the scheduler.
    SpawnTasks,
    /// Build the proposer factory and start the collator for this parachain.
    StartCollator { para_id: u32 },
    /// Start the syncing full node for this parachain.
    StartFullNode { para_id: u32 },
    /// Let the network carry traffic.
    ActivateNetwork,
}

/// What the caller reports once an action has ended.
#[derive(Clone, Copy, Debug, PartialEq, Eq, Structural)]
pub enum Event {
    /// The partial components stand.
    Assembled,
    /// A part of the partial components could not be built.
    AssemblyFailed(AssemblyError),
    /// The network is wired.
    NetworkBuilt,
    /// The network could not be built.
    NetworkFailed,
    /// The RPC method groups are registered.
    RpcBuilt,
    /// The service tasks are with the scheduler.
    TasksSpawned,
    /// The service tasks could not be handed over.
    SpawnFailed,
    /// The collator runs and has fixed the block-announce predicate.
    CollatorStarted,
    /// The collator could not be started.
    CollatorFailed,
    /// The full node runs and has fixed the block-announce predicate.
    FullNodeStarted,
    /// The full node could not be started.
    FullNodeFailed,
    /// The network carries traffic.
    NetworkActivated,
}

/// The action that starts the driver of a role.
pub open spec fn driver_start(role: Role, para_id: u32) -> Action {
    match role {
        Role::ValidatorCollator => Action::StartCollator { para_id },
        Role::SyncingFullNode => Action::StartFullNode { para_id },
    }
}

/// The action that is pending at a stage; none once the attempt has ended.
pub open spec fn pending_action(stage: Stage, role: Role, para_id: u32) -> Option<Action> {
    match stage {
        Stage::Idle => Some(Action::Assemble),
        Stage::Assembling => Some(Action::BuildNetwork),
        Stage::NetworkReady => Some(Action::BuildRpc),
        Stage::RpcReady => Some(Action::SpawnTasks),
        Stage::TasksSpawned => Some(driver_start(role, para_id)),
        Stage::RoleStarted => Some(Action::ActivateNetwork),
        Stage::NetworkActive => None,
        Stage::Failed(_) => None,
    }
}

/// The stage that follows when `event` is reported at `stage`; none where the
/// event does not end the action that is pending there.
pub open spec fn stage_after(stage: Stage, role: Role, event: Event) -> Option<Stage> {
    match (stage, event) {
        (Stage::Idle, Event::Assembled) => Some(Stage::Assembling),
        (Stage::Idle, Event::AssemblyFailed(cause)) => Some(
            Stage::Failed(cause.as_service_error()),
        ),
        (Stage::Assembling, Event::NetworkBuilt) => Some(Stage::NetworkReady),
        (Stage::Assembling, Event::NetworkFailed) => Some(
            Stage::Failed(ServiceError::NetworkError),
        ),
        (Stage::NetworkReady, Event::RpcBuilt) => Some(Stage::RpcReady),
        (Stage::RpcReady, Event::TasksSpawned) => Some(Stage::TasksSpawned),
        (Stage::RpcReady, Event::SpawnFailed) => Some(Stage::Failed(ServiceError::SpawnError)),
        (Stage::TasksSpawned, Event::CollatorStarted) => if role is ValidatorCollator {
            Some(Stage::RoleStarted)
        } else {
            None
        },
        (Stage::TasksSpawned, Event::CollatorFailed) => if role is ValidatorCollator {
            Some(Stage::Failed(ServiceError::CollatorStartError))
        } else {
            None
        },
        (Stage::TasksSpawned, Event::FullNodeStarted) => if role is SyncingFullNode {
            Some(Stage::RoleStarted)
        } else {
            None
        },
        (Stage::TasksSpawned, Event::FullNodeFailed) => if role is SyncingFullNode {
            Some(Stage::Failed(ServiceError::FullNodeStartError))
        } else {
            None
        },
        (Stage::RoleStarted, Event::NetworkActivated) => Some(Stage::NetworkActive),
        _ => None,
    }
}

/// How a finished attempt ended; none while an action is pending.
pub open spec fn result_at(stage: Stage) -> Option<Result<(), ServiceError>> {
    match stage {
        Stage::NetworkActive => Some(Ok(())),
        Stage::Failed(e) => Some(Err(e)),
        _ => None,
    }
}

/// A start attempt as the proofs see it: its fixed inputs, its stage, and
/// the actions that were performed so far, in order.
pub struct Run {
    pub role: Role,
    pub para_id: u32,
    pub stage: Stage,
    pub performed: Seq<Action>,
}

impl Run {
    /// An attempt of which nothing has been performed.
    pub open spec fn initial(role: Role, para_id: u32) -> Run {
        Run { role, para_id, stage: Stage::Idle, performed: Seq::empty() }
    }

    /// The attempt that a configuration opens: over before it began for a
    /// light client, at `Idle` otherwise.
    pub open spec fn begin(configured: ConfiguredRole, validator: bool, para_id: u32) -> Run {
        match selected_role(configured, validator) {
            Ok(role) => Run::initial(role, para_id),
            Err(e) => Run {
                role: role_of_flag(validator),
                para_id,
                stage: Stage::Failed(e),
                performed: Seq::empty(),
            },
        }
    }

    /// The action that is pending.
    pub open spec fn pending(self) -> Option<Action> {
        pending_action(self.stage, self.role, self.para_id)
    }

    /// Whether `event` ends the pending action.
    pub open spec fn accepts(self, event: Event) -> bool {
        stage_after(self.stage, self.role, event) is Some
    }

    /// The attempt after `event` was reported. An event that does not end
    /// the pending action changes nothing.
    pub open spec fn step(self, event: Event) -> Run {
        match stage_after(self.stage, self.role, event) {
            Some(next) => Run {
                stage: next,
                performed: self.performed.push(self.pending().unwrap()),
                ..self
            },
            None => self,
        }
    }

    /// The attempt after a series of events.
    pub open spec fn replay(self, events: Seq<Event>) -> Run
        decreases events.len(),
    {
        if events.len() == 0 {
            self
        } else {
            self.replay(events.drop_last()).step(events.last())
        }
    }

    /// The actions of a complete start, in the one order in which they are
    /// ever performed.
    pub open spec fn plan(self) -> Seq<Action> {
        seq![
            Action::Assemble,
            Action::BuildNetwork,
            Action::BuildRpc,
            Action::SpawnTasks,
            driver_start(self.role, self.para_id),
            Action::ActivateNetwork,
        ]
    }

    /// What holds of every attempt: the performed actions are the first
    /// actions of the plan, as many as the stage stands for, and a driver
    /// error names the driver of the attempt's own role.
    pub open spec fn valid(self) -> bool {
        &&& self.performed == self.plan().take(attempts(self.stage) as int)
        &&& self.stage == Stage::Failed(ServiceError::CollatorStartError)
            ==> self.role is ValidatorCollator
        &&& self.stage == Stage::Failed(ServiceError::FullNodeStartError)
            ==> self.role is SyncingFullNode
    }
}

/// The number of actions that were performed when a stage is reached,
/// the failed one included.
pub open spec fn attempts(stage: Stage) -> nat {
    match stage {
        Stage::Idle => 0,
        Stage::Assembling => 1,
        Stage::NetworkReady => 2,
        Stage::RpcReady => 3,
        Stage::TasksSpawned => 4,
        Stage::RoleStarted => 5,
        Stage::NetworkActive => 6,
        Stage::Failed(ServiceError::ConfigurationError) => 0,
        Stage::Failed(ServiceError::StorageInitError) => 1,
        Stage::Failed(ServiceError::ImportQueueInitError) => 1,
        Stage::Failed(ServiceError::NetworkError) => 2,
        Stage::Failed(ServiceError::SpawnError) => 4,
        Stage::Failed(ServiceError::CollatorStartError) => 5,
        Stage::Failed(ServiceError::FullNodeStartError) => 5,
    }
}

/// The machine that leads a start attempt.
pub struct Orchestrator {
    stage: Stage,
    role: Role,
    para_id: u32,
    performed: Ghost<Seq<Action>>,
}

impl View for Orchestrator {
    type V = Run;

    closed spec fn view(&self) -> Run {
        Run {
            role: self.role,
            para_id: self.para_id,
            stage: self.stage,
            performed: self.performed@,
        }
    }
}

impl Orchestrator {
    #[verifier::type_invariant]
    spec fn well_formed(self) -> bool {
        self@.valid()
    }

    /// Opens a start attempt for a parachain node beside its relay-chain
    /// node. A light client is turned away before anything is touched or
    /// built. For every other node the informant lines of the two chains are
    /// marked, and the machine stands at `Idle` in the role that the
    /// validator flag asks for; nothing else of either configuration is
    /// read.
    pub fn start(
        parachain: &mut NodeConfiguration,
        relay: &mut NodeConfiguration,
        para_id: u32,
        validator: bool,
    ) -> (opened: Result<Orchestrator, ServiceError>)
        ensures
            opened is Err <==> old(parachain).role is Light,
            final(parachain).role == old(parachain).role,
            final(relay).role == old(relay).role,
            match opened {
                Ok(machine) => {
                    &&& machine@ == Run::begin(old(parachain).role, validator, para_id)
                    &&& machine@ == Run::initial(role_of_flag(validator), para_id)
                    &&& machine@.valid()
                    &&& final(parachain).informant_output_format.marks(Chain::Parachain)
                    &&& final(relay).informant_output_format.marks(Chain::Relaychain)
                },
                Err(e) => {
                    &&& e == ServiceError::ConfigurationError
                    &&& Run::begin(old(parachain).role, validator, para_id).stage
                        == Stage::Failed(e)
                    &&& *final(parachain) == *old(parachain)
                    &&& *final(relay) == *old(relay)
                },
            },
    {
        match select_role(parachain.role, validator) {
            Err(e) => Err(e),
            Ok(role) => {
                parachain.informant_output_format = OutputFormat::for_chain(Chain::Parachain);
                relay.informant_output_format = OutputFormat::for_chain(Chain::Relaychain);
                proof {
                    assert(Run::initial(role, para_id).plan().take(0) =~= Seq::<Action>::empty());
                }
                Ok(Orchestrator { stage: Stage::Idle, role, para_id, performed: Ghost(Seq::empty()) })
            },
        }
    }

    /// The stage of the attempt.
    pub fn stage(&self) -> (stage: Stage)
        ensures
            stage == self@.stage,
            self@.valid(),
    {
        proof {
            use_type_invariant(self);
        }
        self.stage
    }

    /// The role of the attempt.
    pub fn role(&self) -> (role: Role)
        ensures
            role == self@.role,
    {
        self.role
    }

    /// The parachain that the node serves.
    pub fn para_id(&self) -> (para_id: u32)
        ensures
            para_id == self@.para_id,
    {
        self.para_id
    }

    /// The action to perform next; none once the attempt has ended.
    pub fn next_action(&self) -> (action: Option<Action>)
        ensures
            action == self@.pending(),
            action is None <==> self@.stage is NetworkActive || self@.stage is Failed,
            self@.valid(),
    {
        proof {
            use_type_invariant(self);
        }
        match self.stage {
            Stage::Idle => Some(Action::Assemble),
            Stage::Assembling => Some(Action::BuildNetwork),
            Stage::NetworkReady => Some(Action::BuildRpc),
            Stage::RpcReady => Some(Action::SpawnTasks),
            Stage::TasksSpawned => match self.role {
                Role::ValidatorCollator => Some(Action::StartCollator { para_id: self.para_id }),
                Role::SyncingFullNode => Some(Action::StartFullNode { para_id: self.para_id }),
            },
            Stage::RoleStarted => Some(Action::ActivateNetwork),
            Stage::NetworkActive => None,
            Stage::Failed(_) => None,
        }
    }

    /// Takes the report of what ended the pending action and moves to the
    /// stage that follows. A report that does not end the pending action is
    /// turned down and changes nothing.
    pub fn advance(&mut self, event: Event) -> (accepted: bool)
        ensures
            accepted == old(self)@.accepts(event),
            final(self)@ == old(self)@.step(event),
            final(self)@.valid(),
    {
        proof {
            use_type_invariant(&*self);
            step_keeps_valid(self@, event);
        }
        let next = match (self.stage, event) {
            (Stage::Idle, Event::Assembled) => Some(Stage::Assembling),
            (Stage::Idle, Event::AssemblyFailed(cause)) => Some(
                Stage::Failed(cause.into_service_error()),
            ),
            (Stage::Assembling, Event::NetworkBuilt) => Some(Stage::NetworkReady),
            (Stage::Assembling, Event::NetworkFailed) => Some(
                Stage::Failed(ServiceError::NetworkError),
            ),
            (Stage::NetworkReady, Event::RpcBuilt) => Some(Stage::RpcReady),
            (Stage::RpcReady, Event::TasksSpawned) => Some(Stage::TasksSpawned),
            (Stage::RpcReady, Event::SpawnFailed) => Some(
                Stage::Failed(ServiceError::SpawnError),
            ),
            (Stage::TasksSpawned, Event::CollatorStarted) => match self.role {
                Role::ValidatorCollator => Some(Stage::RoleStarted),
                Role::SyncingFullNode => None,
            },
            (Stage::TasksSpawned, Event::CollatorFailed) => match self.role {
                Role::ValidatorCollator => Some(
                    Stage::Failed(ServiceError::CollatorStartError),
                ),
                Role::SyncingFullNode => None,
            },
            (Stage::TasksSpawned, Event::FullNodeStarted) => match self.role {
                Role::ValidatorCollator => None,
                Role::SyncingFullNode => Some(Stage::RoleStarted),
            },
            (Stage::TasksSpawned, Event::FullNodeFailed) => match self.role {
                Role::ValidatorCollator => None,
                Role::SyncingFullNode => Some(
                    Stage::Failed(ServiceError::FullNodeStartError),
                ),
            },
            (Stage::RoleStarted, Event::NetworkActivated) => Some(Stage::NetworkActive),
            _ => None,
        };
        match next {
            Some(stage) => {
                let ghost before = self@;
                *self = Orchestrator {
                    stage,
                    role: self.role,
                    para_id: self.para_id,
                    performed: Ghost(before.performed.push(before.pending().unwrap())),
                };
                true
            },
            None => false,
        }
    }

    /// How the attempt ended: `Ok` once the network is active, the error
    /// once the attempt has failed, nothing while an action is pending.
    pub fn outcome(&self) -> (ended: Option<Result<(), ServiceError>>)
        ensures
            ended == result_at(self@.stage),
            ended is None <==> self@.pending() is Some,
            self@.valid(),
    {
        proof {
            use_type_invariant(self);
        }
        match self.stage {
            Stage::NetworkActive => Some(Ok(())),
            Stage::Failed(e) => Some(Err(e)),
            _ => None,
        }
    }
}

/// Every report leaves a valid attempt valid.
pub proof fn step_keeps_valid(run: Run, event: Event)
    requires
        run.valid(),
    ensures
        run.step(event).valid(),
{
    let plan = run.plan();
    let k = attempts(run.stage) as int;
    if run.accepts(event) {
        assert(run.pending() == Some(plan[k]));
        assert(plan.take(k).push(plan[k]) =~= plan.take(k + 1));
        assert(run.step(event).plan() == plan);
    }
}

} // verus!
