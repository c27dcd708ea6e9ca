//! What each action of the startup is given and what it leaves behind.
//!
//! The order of the startup is the order in which the components of a node
//! come into being: an action is asked for only once everything it is given
//! stands. Each component is built once; client, pool and backend are
//! shared by everything that is given them.

use vstd::prelude::*;
use crate::assembly::AssemblyAction;
use crate::orchestrator::Action;

verus! {

/// A component of a node during its startup.
#[derive(Clone, Copy, Debug, PartialEq, Eq, Structural)]
pub enum Component {
    /// The configuration of the parachain node, given by the caller.
    ParachainConfig,
    /// The configuration of the relay-chain node, given by the caller.
    RelayConfig,
    /// The collator's key pair, given by the caller.
    CollatorKey,
    /// The metrics registry of the parachain node, given by the caller.
    MetricsRegistry,
    /// The storage backend.
    Backend,
    /// The handle to chain state and block storage. A node has one.
    Client,
    /// The store of the node's keys.
    Keystore,
    /// The task scheduler.
    Scheduler,
    /// The transaction pool, bound to the client.
    TransactionPool,
    /// The queue that checks and imports blocks, bound to the client.
    ImportQueue,
    /// The registry of inherent-data providers.
    InherentProviders,
    /// The block-announce validator whose predicate is fixed by the driver.
    AnnounceValidator,
    /// The wired network, which also announces the node's own blocks.
    Network,
    /// Where the network reports its status.
    StatusSinks,
    /// The channel from the RPC server to the network.
    RpcChannel,
    /// The capability that lets the network carry traffic.
    NetworkStarter,
    /// The factory of per-connection dispatch tables.
    RpcFactory,
    /// The factory of block proposers. Only a collator has one.
    ProposerFactory,
}

/// Whether the caller brings the component along.
pub open spec fn supplied(component: Component) -> bool {
    component is ParachainConfig || component is RelayConfig || component is CollatorKey
        || component is MetricsRegistry
}

/// The components an action is given.
pub open spec fn needs(action: Action) -> Set<Component> {
    match action {
        Action::Assemble => set![Component::ParachainConfig, Component::MetricsRegistry],
        Action::BuildNetwork => set![
            Component::ParachainConfig,
            Component::Client,
            Component::TransactionPool,
            Component::Scheduler,
            Component::ImportQueue,
        ],
        Action::BuildRpc => set![Component::Client, Component::TransactionPool],
        Action::SpawnTasks => set![
            Component::ParachainConfig,
            Component::Network,
            Component::StatusSinks,
            Component::RpcChannel,
            Component::RpcFactory,
            Component::Client,
            Component::TransactionPool,
            Component::Backend,
            Component::Keystore,
            Component::Scheduler,
        ],
        Action::StartCollator { .. } => set![
            Component::Client,
            Component::TransactionPool,
            Component::MetricsRegistry,
            Component::InherentProviders,
            Component::Network,
            Component::AnnounceValidator,
            Component::RelayConfig,
            Component::CollatorKey,
            Component::Scheduler,
        ],
        Action::StartFullNode { .. } => set![
            Component::Client,
            Component::Network,
            Component::AnnounceValidator,
            Component::RelayConfig,
            Component::CollatorKey,
            Component::Scheduler,
        ],
        Action::ActivateNetwork => set![Component::NetworkStarter],
    }
}

/// The components an action leaves behind where it succeeds.
pub open spec fn yields(action: Action) -> Set<Component> {
    match action {
        Action::Assemble => set![
            Component::Backend,
            Component::Client,
            Component::Keystore,
            Component::Scheduler,
            Component::TransactionPool,
            Component::ImportQueue,
            Component::InherentProviders,
        ],
        Action::BuildNetwork => set![
            Component::AnnounceValidator,
            Component::Network,
            Component::StatusSinks,
            Component::RpcChannel,
            Component::NetworkStarter,
        ],
        Action::BuildRpc => set![Component::RpcFactory],
        Action::SpawnTasks => set![],
        Action::StartCollator { .. } => set![Component::ProposerFactory],
        Action::StartFullNode { .. } => set![],
        Action::ActivateNetwork => set![],
    }
}

/// The components a part of the assembly is given.
pub open spec fn part_needs(action: AssemblyAction) -> Set<Component> {
    match action {
        AssemblyAction::OpenStorage => set![Component::ParachainConfig],
        AssemblyAction::BuildPool => set![
            Component::ParachainConfig,
            Component::MetricsRegistry,
            Component::Client,
            Component::Scheduler,
        ],
        AssemblyAction::BuildImportQueue => set![
            Component::MetricsRegistry,
            Component::Client,
            Component::InherentProviders,
            Component::Scheduler,
        ],
    }
}

/// The components a part of the assembly leaves behind where it succeeds.
pub open spec fn part_yields(action: AssemblyAction) -> Set<Component> {
    match action {
        AssemblyAction::OpenStorage => set![
            Component::Backend,
            Component::Client,
            Component::Keystore,
            Component::Scheduler,
            Component::InherentProviders,
        ],
        AssemblyAction::BuildPool => set![Component::TransactionPool],
        AssemblyAction::BuildImportQueue => set![Component::ImportQueue],
    }
}

/// The components that a successful start hands back to the caller.
pub open spec fn handed_back() -> Set<Component> {
    set![Component::Scheduler, Component::Client]
}

impl AssemblyAction {
    /// Whether the part is given `component`.
    pub fn is_given(&self, component: Component) -> (given: bool)
        ensures
            given == part_needs(*self).contains(component),
    {
        match self {
            AssemblyAction::OpenStorage => matches!(component, Component::ParachainConfig),
            AssemblyAction::BuildPool => matches!(
                component,
                Component::ParachainConfig | Component::MetricsRegistry | Component::Client
                    | Component::Scheduler
            ),
            AssemblyAction::BuildImportQueue => matches!(
                component,
                Component::MetricsRegistry | Component::Client | Component::InherentProviders
                    | Component::Scheduler
            ),
        }
    }

    /// Whether the part leaves `component` behind where it succeeds.
    pub fn builds(&self, component: Component) -> (built: bool)
        ensures
            built == part_yields(*self).contains(component),
    {
        match self {
            AssemblyAction::OpenStorage => matches!(
                component,
                Component::Backend | Component::Client | Component::Keystore
                    | Component::Scheduler | Component::InherentProviders
            ),
            AssemblyAction::BuildPool => matches!(component, Component::TransactionPool),
            AssemblyAction::BuildImportQueue => matches!(component, Component::ImportQueue),
        }
    }
}

impl Action {
    /// Whether the action is given `component`.
    pub fn is_given(&self, component: Component) -> (given: bool)
        ensures
            given == needs(*self).contains(component),
    {
        match self {
            Action::Assemble => matches!(
                component,
                Component::ParachainConfig | Component::MetricsRegistry
            ),
            Action::BuildNetwork => matches!(
                component,
                Component::ParachainConfig | Component::Client | Component::TransactionPool
                    | Component::Scheduler | Component::ImportQueue
            ),
            Action::BuildRpc => matches!(component, Component::Client | Component::TransactionPool),
            Action::SpawnTasks => matches!(
                component,
                Component::ParachainConfig | Component::Network | Component::StatusSinks
                    | Component::RpcChannel | Component::RpcFactory | Component::Client
                    | Component::TransactionPool | Component::Backend | Component::Keystore
                    | Component::Scheduler
            ),
            Action::StartCollator { .. } => matches!(
                component,
                Component::Client | Component::TransactionPool | Component::MetricsRegistry
                    | Component::InherentProviders | Component::Network
                    | Component::AnnounceValidator | Component::RelayConfig
                    | Component::CollatorKey | Component::Scheduler
            ),
            Action::StartFullNode { .. } => matches!(
                component,
                Component::Client | Component::Network | Component::AnnounceValidator
                    | Component::RelayConfig | Component::CollatorKey | Component::Scheduler
            ),
            Action::ActivateNetwork => matches!(component, Component::NetworkStarter),
        }
    }

    /// Whether the action leaves `component` behind where it succeeds.
    pub fn builds(&self, component: Component) -> (built: bool)
        ensures
            built == yields(*self).contains(component),
    {
        match self {
            Action::Assemble => matches!(
                component,
                Component::Backend | Component::Client | Component::Keystore
                    | Component::Scheduler | Component::TransactionPool | Component::ImportQueue
                    | Component::InherentProviders
            ),
            Action::BuildNetwork => matches!(
                component,
                Component::AnnounceValidator | Component::Network | Component::StatusSinks
                    | Component::RpcChannel | Component::NetworkStarter
            ),
            Action::BuildRpc => matches!(component, Component::RpcFactory),
            Action::SpawnTasks => false,
            Action::StartCollator { .. } => matches!(component, Component::ProposerFactory),
            Action::StartFullNode { .. } => false,
            Action::ActivateNetwork => false,
        }
    }
}

} // verus!
