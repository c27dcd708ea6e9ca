//! The assembly of the partial components: storage and client first, then
//! the transaction pool, then the import queue. Nothing that is built here
//! runs yet.

use vstd::prelude::*;
use crate::error::AssemblyError;

verus! {

/// How far the assembly has come.
#[derive(Clone, Copy, Debug, PartialEq, Eq, Structural)]
pub enum AssemblyStage {
    /// Nothing has been built.
    Empty,
    /// Backend, client, keystore, scheduler and the registry of
    /// inherent-data providers stand.
    PartsReady,
    /// The transaction pool stands, bound to the client.
    PoolReady,
    /// The import queue stands too: the bundle is complete.
    Complete,
    /// The assembly has ended with this error.
    Failed(AssemblyError),
}

/// What the caller is asked to build.
#[derive(Clone, Copy, Debug, PartialEq, Eq, Structural)]
pub enum AssemblyAction {
    /// Open the storage backend and build client, keystore and scheduler on
    /// it, and set up the registry of inherent-data providers. This is the
    /// one place where a client comes into being.
    OpenStorage,
    /// Build the transaction pool on the client and the scheduler.
    BuildPool,
    /// Build the import queue. It takes the client twice, as the target of
    /// block import and as the oracle of validation, and the registry of
    /// inherent-data providers.
    BuildImportQueue,
}

/// What the caller reports once a part was built, or could not be.
#[derive(Clone, Copy, Debug, PartialEq, Eq, Structural)]
pub enum AssemblyEvent {
    /// Backend, client, keystore and scheduler stand.
    StorageOpened,
    /// The storage backend could not be opened.
    StorageFailed,
    /// The transaction pool stands.
    PoolBuilt,
    /// The import queue stands.
    ImportQueueBuilt,
    /// The consensus layer could not set up the import queue.
    ImportQueueFailed,
}

/// The part that is to be built at a stage; none once the assembly has ended.
pub open spec fn pending_part(stage: AssemblyStage) -> Option<AssemblyAction> {
    match stage {
        AssemblyStage::Empty => Some(AssemblyAction::OpenStorage),
        AssemblyStage::PartsReady => Some(AssemblyAction::BuildPool),
        AssemblyStage::PoolReady => Some(AssemblyAction::BuildImportQueue),
        AssemblyStage::Complete => None,
        AssemblyStage::Failed(_) => None,
    }
}

/// The stage that follows when `event` is reported at `stage`; none where
/// the event does not end the building of the pending part. Building the
/// pool cannot fail.
pub open spec fn assembly_stage_after(stage: AssemblyStage, event: AssemblyEvent) -> Option<
    AssemblyStage,
> {
    match (stage, event) {
        (AssemblyStage::Empty, AssemblyEvent::StorageOpened) => Some(AssemblyStage::PartsReady),
        (AssemblyStage::Empty, AssemblyEvent::StorageFailed) => Some(
            AssemblyStage::Failed(AssemblyError::StorageInit),
        ),
        (AssemblyStage::PartsReady, AssemblyEvent::PoolBuilt) => Some(AssemblyStage::PoolReady),
        (AssemblyStage::PoolReady, AssemblyEvent::ImportQueueBuilt) => Some(
            AssemblyStage::Complete,
        ),
        (AssemblyStage::PoolReady, AssemblyEvent::ImportQueueFailed) => Some(
            AssemblyStage::Failed(AssemblyError::ImportQueueInit),
        ),
        _ => None,
    }
}

/// How a finished assembly ended; none while a part is pending.
pub open spec fn assembly_result_at(stage: AssemblyStage) -> Option<Result<(), AssemblyError>> {
    match stage {
        AssemblyStage::Complete => Some(Ok(())),
        AssemblyStage::Failed(e) => Some(Err(e)),
        _ => None,
    }
}

/// The number of parts whose building was tried when a stage is reached.
pub open spec fn parts_tried(stage: AssemblyStage) -> nat {
    match stage {
        AssemblyStage::Empty => 0,
        AssemblyStage::PartsReady => 1,
        AssemblyStage::PoolReady => 2,
        AssemblyStage::Complete => 3,
        AssemblyStage::Failed(AssemblyError::StorageInit) => 1,
        AssemblyStage::Failed(AssemblyError::ImportQueueInit) => 3,
    }
}

/// The parts of a complete assembly, in the order in which they are built.
pub open spec fn assembly_plan() -> Seq<AssemblyAction> {
    seq![AssemblyAction::OpenStorage, AssemblyAction::BuildPool, AssemblyAction::BuildImportQueue]
}

/// An assembly as the proofs see it: its stage, and the parts whose building
/// was tried so far, in order.
pub struct AssemblyRun {
    pub stage: AssemblyStage,
    pub performed: Seq<AssemblyAction>,
}

impl AssemblyRun {
    /// An assembly of which nothing has been built.
    pub open spec fn initial() -> AssemblyRun {
        AssemblyRun { stage: AssemblyStage::Empty, performed: Seq::empty() }
    }

    /// The part that is pending.
    pub open spec fn pending(self) -> Option<AssemblyAction> {
        pending_part(self.stage)
    }

    /// Whether `event` ends the building of the pending part.
    pub open spec fn accepts(self, event: AssemblyEvent) -> bool {
        assembly_stage_after(self.stage, event) is Some
    }

    /// The assembly after `event` was reported. An event that does not end
    /// the building of the pending part changes nothing.
    pub open spec fn step(self, event: AssemblyEvent) -> AssemblyRun {
        match assembly_stage_after(self.stage, event) {
            Some(next) => AssemblyRun {
                stage: next,
                performed: self.performed.push(self.pending().unwrap()),
            },
            None => self,
        }
    }

    /// The assembly after a series of events.
    pub open spec fn replay(self, events: Seq<AssemblyEvent>) -> AssemblyRun
        decreases events.len(),
    {
        if events.len() == 0 {
            self
        } else {
            self.replay(events.drop_last()).step(events.last())
        }
    }

    /// What holds of every assembly: the parts tried are the first parts of
    /// the plan, as many as the stage stands for.
    pub open spec fn valid(self) -> bool {
        self.performed == assembly_plan().take(parts_tried(self.stage) as int)
    }
}

/// The machine that leads the assembly of the partial components.
pub struct Assembly {
    stage: AssemblyStage,
    performed: Ghost<Seq<AssemblyAction>>,
}

impl View for Assembly {
    type V = AssemblyRun;

    closed spec fn view(&self) -> AssemblyRun {
        AssemblyRun { stage: self.stage, performed: self.performed@ }
    }
}

impl Assembly {
    #[verifier::type_invariant]
    spec fn well_formed(self) -> bool {
        self@.valid()
    }

    /// Opens an assembly of which nothing has been built.
    pub fn new() -> (machine: Assembly)
        ensures
            machine@ == AssemblyRun::initial(),
            machine@.valid(),
    {
        proof {
            assert(assembly_plan().take(0) =~= Seq::<AssemblyAction>::empty());
        }
        Assembly { stage: AssemblyStage::Empty, performed: Ghost(Seq::empty()) }
    }

    /// The stage of the assembly.
    pub fn stage(&self) -> (stage: AssemblyStage)
        ensures
            stage == self@.stage,
            self@.valid(),
    {
        proof {
            use_type_invariant(self);
        }
        self.stage
    }

    /// The part to build next; none once the assembly has ended.
    pub fn next_action(&self) -> (action: Option<AssemblyAction>)
        ensures
            action == self@.pending(),
            action is None <==> self@.stage is Complete || self@.stage is Failed,
            self@.valid(),
    {
        proof {
            use_type_invariant(self);
        }
        match self.stage {
            AssemblyStage::Empty => Some(AssemblyAction::OpenStorage),
            AssemblyStage::PartsReady => Some(AssemblyAction::BuildPool),
            AssemblyStage::PoolReady => Some(AssemblyAction::BuildImportQueue),
            AssemblyStage::Complete => None,
            AssemblyStage::Failed(_) => None,
        }
    }

    /// Takes the report of how the building of the pending part ended and
    /// moves to the stage that follows. A report that does not end it is
    /// turned down and changes nothing.
    pub fn advance(&mut self, event: AssemblyEvent) -> (accepted: bool)
        ensures
            accepted == old(self)@.accepts(event),
            final(self)@ == old(self)@.step(event),
            final(self)@.valid(),
    {
        proof {
            use_type_invariant(&*self);
            assembly_step_keeps_valid(self@, event);
        }
        let next = match (self.stage, event) {
            (AssemblyStage::Empty, AssemblyEvent::StorageOpened) => Some(
                AssemblyStage::PartsReady,
            ),
            (AssemblyStage::Empty, AssemblyEvent::StorageFailed) => Some(
                AssemblyStage::Failed(AssemblyError::StorageInit),
            ),
            (AssemblyStage::PartsReady, AssemblyEvent::PoolBuilt) => Some(
                AssemblyStage::PoolReady,
            ),
            (AssemblyStage::PoolReady, AssemblyEvent::ImportQueueBuilt) => Some(
                AssemblyStage::Complete,
            ),
            (AssemblyStage::PoolReady, AssemblyEvent::ImportQueueFailed) => Some(
                AssemblyStage::Failed(AssemblyError::ImportQueueInit),
            ),
            _ => None,
        };
        match next {
            Some(stage) => {
                let ghost before = self@;
                *self = Assembly {
                    stage,
                    performed: Ghost(before.performed.push(before.pending().unwrap())),
                };
                true
            },
            None => false,
        }
    }

    /// How the assembly ended: `Ok` once the bundle is complete, the error
    /// once a part could not be built, nothing while a part is pending.
    pub fn outcome(&self) -> (ended: Option<Result<(), AssemblyError>>)
        ensures
            ended == assembly_result_at(self@.stage),
            ended is None <==> self@.pending() is Some,
            self@.valid(),
    {
        proof {
            use_type_invariant(self);
        }
        match self.stage {
            AssemblyStage::Complete => Some(Ok(())),
            AssemblyStage::Failed(e) => Some(Err(e)),
            _ => None,
        }
    }
}

/// Every report leaves a valid assembly valid.
pub proof fn assembly_step_keeps_valid(run: AssemblyRun, event: AssemblyEvent)
    requires
        run.valid(),
    ensures
        run.step(event).valid(),
{
    let plan = assembly_plan();
    let k = parts_tried(run.stage) as int;
    if run.accepts(event) {
        assert(run.pending() == Some(plan[k]));
        assert(plan.take(k).push(plan[k]) =~= plan.take(k + 1));
    }
}

} // verus!
