use std::cell::Cell;
use std::rc::Rc;

use collator_service::config::NodeConfiguration;
use collator_service::error::{AssemblyError, ServiceError};
use collator_service::informant::OutputFormat;
use collator_service::orchestrator::{Action, Event, Orchestrator, Stage};
use collator_service::role::{select_role, ConfiguredRole, Role};
use collator_service::wiring::Component;

fn config(role: ConfiguredRole) -> NodeConfiguration {
    NodeConfiguration {
        role,
        informant_output_format: OutputFormat { enable_color: false, prefix: String::new() },
    }
}

fn open(role: ConfiguredRole, validator: bool, para_id: u32) -> Result<Orchestrator, ServiceError> {
    let mut parachain = config(role);
    let mut relay = config(ConfiguredRole::Full);
    Orchestrator::start(&mut parachain, &mut relay, para_id, validator)
}

/// Stands in for the services: it records every action, keeps the
/// components that were built, lets one chosen action fail, locks its store
/// when it assembles and fails to assemble on a store that is locked, and
/// has a network that delivers a packet on every pump once it was activated.
struct Services {
    store_locked: Rc<Cell<bool>>,
    fail: Option<Action>,
    assembly_error: AssemblyError,
    calls: Vec<Action>,
    built: Vec<Component>,
    network_active: bool,
    delivered: usize,
}

const ALL_COMPONENTS: [Component; 18] = [
    Component::ParachainConfig,
    Component::RelayConfig,
    Component::CollatorKey,
    Component::MetricsRegistry,
    Component::Backend,
    Component::Client,
    Component::Keystore,
    Component::Scheduler,
    Component::TransactionPool,
    Component::ImportQueue,
    Component::InherentProviders,
    Component::AnnounceValidator,
    Component::Network,
    Component::StatusSinks,
    Component::RpcChannel,
    Component::NetworkStarter,
    Component::RpcFactory,
    Component::ProposerFactory,
];

impl Services {
    fn on_store(store_locked: Rc<Cell<bool>>) -> Services {
        Services { store_locked, ..Services::new(None) }
    }

    fn new(fail: Option<Action>) -> Services {
        Services {
            store_locked: Rc::new(Cell::new(false)),
            fail,
            assembly_error: AssemblyError::StorageInit,
            calls: Vec::new(),
            built: vec![
                Component::ParachainConfig,
                Component::RelayConfig,
                Component::CollatorKey,
                Component::MetricsRegistry,
            ],
            network_active: false,
            delivered: 0,
        }
    }

    fn pump(&mut self) {
        if self.network_active {
            self.delivered += 1;
        }
    }

    fn perform(&mut self, action: Action) -> Event {
        for component in ALL_COMPONENTS {
            if action.is_given(component) {
                assert!(self.built.contains(&component), "{:?} lacks {:?}", action, component);
            }
        }
        self.calls.push(action);
        self.pump();
        let locked_out = action == Action::Assemble && self.store_locked.replace(true);
        let failed = self.fail == Some(action) || locked_out;
        if !failed {
            for component in ALL_COMPONENTS {
                if action.builds(component) {
                    assert!(!self.built.contains(&component), "{:?} built twice", component);
                    self.built.push(component);
                }
            }
        }
        match action {
            Action::Assemble => {
                if failed {
                    Event::AssemblyFailed(self.assembly_error)
                } else {
                    Event::Assembled
                }
            }
            Action::BuildNetwork => {
                if failed {
                    Event::NetworkFailed
                } else {
                    Event::NetworkBuilt
                }
            }
            Action::BuildRpc => Event::RpcBuilt,
            Action::SpawnTasks => {
                if failed {
                    Event::SpawnFailed
                } else {
                    Event::TasksSpawned
                }
            }
            Action::StartCollator { .. } => {
                if failed {
                    Event::CollatorFailed
                } else {
                    Event::CollatorStarted
                }
            }
            Action::StartFullNode { .. } => {
                if failed {
                    Event::FullNodeFailed
                } else {
                    Event::FullNodeStarted
                }
            }
            Action::ActivateNetwork => {
                self.network_active = true;
                Event::NetworkActivated
            }
        }
    }
}

fn run(machine: &mut Orchestrator, services: &mut Services) -> Result<(), ServiceError> {
    while let Some(action) = machine.next_action() {
        let event = services.perform(action);
        assert!(machine.advance(event));
    }
    machine.outcome().expect("an attempt without a pending action has ended")
}

#[test]
fn full_node_scenario_reaches_network_active() {
    let mut machine = open(ConfiguredRole::Full, false, 42).unwrap();
    assert_eq!(machine.role(), Role::SyncingFullNode);
    assert_eq!(machine.para_id(), 42);
    let mut services = Services::new(None);
    assert_eq!(run(&mut machine, &mut services), Ok(()));
    assert_eq!(
        services.calls,
        vec![
            Action::Assemble,
            Action::BuildNetwork,
            Action::BuildRpc,
            Action::SpawnTasks,
            Action::StartFullNode { para_id: 42 },
            Action::ActivateNetwork,
        ]
    );
    assert!(Action::StartFullNode { para_id: 42 }.is_given(Component::Network));
    assert!(services.network_active);
    assert_eq!(machine.stage(), Stage::NetworkActive);
    assert!(services.built.contains(&Component::Scheduler));
    assert!(services.built.contains(&Component::Client));
}

#[test]
fn collator_scenario_never_starts_full_node() {
    let mut machine = open(ConfiguredRole::Authority, true, 42).unwrap();
    assert_eq!(machine.role(), Role::ValidatorCollator);
    let mut services = Services::new(None);
    assert_eq!(run(&mut machine, &mut services), Ok(()));
    assert_eq!(
        services.calls,
        vec![
            Action::Assemble,
            Action::BuildNetwork,
            Action::BuildRpc,
            Action::SpawnTasks,
            Action::StartCollator { para_id: 42 },
            Action::ActivateNetwork,
        ]
    );
    assert!(services.built.contains(&Component::ProposerFactory));
    assert!(!services.calls.iter().any(|a| matches!(a, Action::StartFullNode { .. })));
    assert_eq!(machine.stage(), Stage::NetworkActive);
}

#[test]
fn light_client_scenario_fails_at_once() {
    let mut parachain = config(ConfiguredRole::Light);
    let mut relay = config(ConfiguredRole::Full);
    let mut services = Services::new(None);
    let ended = match Orchestrator::start(&mut parachain, &mut relay, 42, false) {
        Ok(mut machine) => run(&mut machine, &mut services),
        Err(e) => Err(e),
    };
    assert_eq!(ended, Err(ServiceError::ConfigurationError));
    assert!(services.calls.is_empty());
    assert!(!services.store_locked.get());
    assert!(!services.network_active);
    assert_eq!(parachain.role, ConfiguredRole::Light);
    assert!(!parachain.informant_output_format.enable_color);
    assert_eq!(parachain.informant_output_format.prefix, "");
    assert!(!relay.informant_output_format.enable_color);
    assert_eq!(relay.informant_output_format.prefix, "");
}

#[test]
fn light_client_is_rejected_whatever_the_flag() {
    for validator in [false, true] {
        for para_id in [0u32, 42, u32::MAX] {
            assert!(matches!(
                open(ConfiguredRole::Light, validator, para_id),
                Err(ServiceError::ConfigurationError)
            ));
            assert_eq!(
                select_role(ConfiguredRole::Light, validator),
                Err(ServiceError::ConfigurationError)
            );
        }
    }
}

#[test]
fn role_follows_the_validator_flag_alone() {
    for configured in [ConfiguredRole::Full, ConfiguredRole::Authority] {
        assert_eq!(select_role(configured, true), Ok(Role::ValidatorCollator));
        assert_eq!(select_role(configured, false), Ok(Role::SyncingFullNode));
        for relay_role in [ConfiguredRole::Full, ConfiguredRole::Light, ConfiguredRole::Authority] {
            for validator in [false, true] {
                let mut parachain = config(configured);
                let mut relay = config(relay_role);
                let mut machine =
                    Orchestrator::start(&mut parachain, &mut relay, 7, validator).unwrap();
                let mut services = Services::new(None);
                assert_eq!(run(&mut machine, &mut services), Ok(()));
                let collators = services
                    .calls
                    .iter()
                    .filter(|a| matches!(a, Action::StartCollator { .. }))
                    .count();
                let full_nodes = services
                    .calls
                    .iter()
                    .filter(|a| matches!(a, Action::StartFullNode { .. }))
                    .count();
                if validator {
                    assert_eq!((collators, full_nodes), (1, 0));
                } else {
                    assert_eq!((collators, full_nodes), (0, 1));
                }
            }
        }
    }
}

#[test]
fn start_marks_the_informants_of_both_chains() {
    let mut parachain = config(ConfiguredRole::Authority);
    let mut relay = config(ConfiguredRole::Full);
    let machine = Orchestrator::start(&mut parachain, &mut relay, 1000, true).unwrap();
    assert_eq!(machine.stage(), Stage::Idle);
    assert_eq!(machine.next_action(), Some(Action::Assemble));
    assert_eq!(machine.outcome(), None);
    assert!(parachain.informant_output_format.enable_color);
    assert_eq!(parachain.informant_output_format.prefix, "[\u{1b}[1;33mParachain\u{1b}[0m] ");
    assert!(relay.informant_output_format.enable_color);
    assert_eq!(relay.informant_output_format.prefix, "[\u{1b}[1;34mRelaychain\u{1b}[0m] ");
    assert_eq!(parachain.role, ConfiguredRole::Authority);
    assert_eq!(relay.role, ConfiguredRole::Full);
}

#[test]
fn network_is_activated_last() {
    for validator in [false, true] {
        let mut machine = open(ConfiguredRole::Full, validator, 5).unwrap();
        let mut services = Services::new(None);
        while let Some(action) = machine.next_action() {
            if action != Action::ActivateNetwork {
                assert!(!services.network_active);
            }
            let event = services.perform(action);
            assert!(machine.advance(event));
            assert_eq!(services.network_active, machine.stage() == Stage::NetworkActive);
            assert_eq!(services.delivered, 0);
        }
        assert_eq!(machine.stage(), Stage::NetworkActive);
        assert_eq!(services.delivered, 0);
        services.pump();
        assert_eq!(services.delivered, 1);
        let at = |wanted: fn(&Action) -> bool| services.calls.iter().position(wanted).unwrap();
        let spawn = at(|a| matches!(a, Action::SpawnTasks));
        let driver =
            at(|a| matches!(a, Action::StartCollator { .. } | Action::StartFullNode { .. }));
        let activation = at(|a| matches!(a, Action::ActivateNetwork));
        assert!(spawn < driver && driver < activation);
        assert_eq!(activation, services.calls.len() - 1);
    }
}

fn failing(validator: bool, fail: Action, cause: AssemblyError) -> (Result<(), ServiceError>, Services, Stage) {
    let mut machine = open(ConfiguredRole::Full, validator, 42).unwrap();
    let mut services = Services::new(Some(fail));
    services.assembly_error = cause;
    let ended = run(&mut machine, &mut services);
    (ended, services, machine.stage())
}

#[test]
fn storage_failure_ends_the_attempt() {
    let (ended, services, stage) = failing(false, Action::Assemble, AssemblyError::StorageInit);
    assert_eq!(ended, Err(ServiceError::StorageInitError));
    assert_eq!(stage, Stage::Failed(ServiceError::StorageInitError));
    assert_eq!(services.calls, vec![Action::Assemble]);
}

#[test]
fn import_queue_failure_ends_the_attempt() {
    let (ended, services, _) = failing(true, Action::Assemble, AssemblyError::ImportQueueInit);
    assert_eq!(ended, Err(ServiceError::ImportQueueInitError));
    assert_eq!(services.calls, vec![Action::Assemble]);
}

#[test]
fn network_failure_ends_the_attempt() {
    let (ended, services, _) = failing(false, Action::BuildNetwork, AssemblyError::StorageInit);
    assert_eq!(ended, Err(ServiceError::NetworkError));
    assert_eq!(services.calls, vec![Action::Assemble, Action::BuildNetwork]);
    assert!(!services.network_active);
}

#[test]
fn spawn_failure_ends_the_attempt() {
    let (ended, services, _) = failing(true, Action::SpawnTasks, AssemblyError::StorageInit);
    assert_eq!(ended, Err(ServiceError::SpawnError));
    assert_eq!(
        services.calls,
        vec![Action::Assemble, Action::BuildNetwork, Action::BuildRpc, Action::SpawnTasks]
    );
}

#[test]
fn collator_failure_does_not_fall_back_to_syncing() {
    let (ended, services, stage) =
        failing(true, Action::StartCollator { para_id: 42 }, AssemblyError::StorageInit);
    assert_eq!(ended, Err(ServiceError::CollatorStartError));
    assert_eq!(stage, Stage::Failed(ServiceError::CollatorStartError));
    assert_eq!(services.calls.last(), Some(&Action::StartCollator { para_id: 42 }));
    assert!(!services.calls.iter().any(|a| matches!(a, Action::StartFullNode { .. })));
    assert!(!services.network_active);
}

#[test]
fn full_node_failure_ends_the_attempt() {
    let (ended, services, _) =
        failing(false, Action::StartFullNode { para_id: 42 }, AssemblyError::StorageInit);
    assert_eq!(ended, Err(ServiceError::FullNodeStartError));
    assert_eq!(services.calls.len(), 5);
    assert!(!services.calls.contains(&Action::ActivateNetwork));
}

const ALL_EVENTS: [Event; 13] = [
    Event::Assembled,
    Event::AssemblyFailed(AssemblyError::StorageInit),
    Event::AssemblyFailed(AssemblyError::ImportQueueInit),
    Event::NetworkBuilt,
    Event::NetworkFailed,
    Event::RpcBuilt,
    Event::TasksSpawned,
    Event::SpawnFailed,
    Event::CollatorStarted,
    Event::CollatorFailed,
    Event::FullNodeStarted,
    Event::FullNodeFailed,
    Event::NetworkActivated,
];

#[test]
fn ended_attempt_takes_no_report() {
    let mut done = open(ConfiguredRole::Full, false, 1).unwrap();
    assert_eq!(run(&mut done, &mut Services::new(None)), Ok(()));
    let mut failed = open(ConfiguredRole::Full, false, 1).unwrap();
    assert!(failed.advance(Event::AssemblyFailed(AssemblyError::StorageInit)));
    for event in ALL_EVENTS {
        assert!(!done.advance(event));
        assert_eq!(done.stage(), Stage::NetworkActive);
        assert_eq!(done.outcome(), Some(Ok(())));
        assert!(!failed.advance(event));
        assert_eq!(failed.stage(), Stage::Failed(ServiceError::StorageInitError));
        assert_eq!(failed.next_action(), None);
    }
}

#[test]
fn report_out_of_turn_changes_nothing() {
    let mut machine = open(ConfiguredRole::Full, true, 9).unwrap();
    for event in ALL_EVENTS {
        if !matches!(event, Event::Assembled | Event::AssemblyFailed(_)) {
            assert!(!machine.advance(event));
            assert_eq!(machine.stage(), Stage::Idle);
        }
    }
    assert!(machine.advance(Event::Assembled));
    assert_eq!(machine.stage(), Stage::Assembling);
    assert!(!machine.advance(Event::Assembled));
    assert!(machine.advance(Event::NetworkBuilt));
    assert_eq!(machine.stage(), Stage::NetworkReady);
    assert!(machine.advance(Event::RpcBuilt));
    assert_eq!(machine.stage(), Stage::RpcReady);
    assert!(machine.advance(Event::TasksSpawned));
    assert_eq!(machine.stage(), Stage::TasksSpawned);
    assert_eq!(machine.next_action(), Some(Action::StartCollator { para_id: 9 }));
    assert!(!machine.advance(Event::FullNodeStarted));
    assert!(!machine.advance(Event::FullNodeFailed));
    assert_eq!(machine.stage(), Stage::TasksSpawned);
    assert!(machine.advance(Event::CollatorStarted));
    assert_eq!(machine.stage(), Stage::RoleStarted);
    assert_eq!(machine.next_action(), Some(Action::ActivateNetwork));
}

#[test]
fn full_node_turns_down_collator_reports() {
    let mut machine = open(ConfiguredRole::Authority, false, 9).unwrap();
    for event in [Event::Assembled, Event::NetworkBuilt, Event::RpcBuilt, Event::TasksSpawned] {
        assert!(machine.advance(event));
    }
    assert_eq!(machine.next_action(), Some(Action::StartFullNode { para_id: 9 }));
    assert!(!machine.advance(Event::CollatorStarted));
    assert!(!machine.advance(Event::CollatorFailed));
    assert!(machine.advance(Event::FullNodeStarted));
    assert_eq!(machine.stage(), Stage::RoleStarted);
}

#[test]
fn every_error_has_its_message() {
    assert_eq!(ServiceError::ConfigurationError.message(), "Light client not supported!");
    assert_eq!(ServiceError::StorageInitError.message(), "Storage backend could not be opened");
    assert_eq!(ServiceError::ImportQueueInitError.message(), "Import queue could not be set up");
    assert_eq!(ServiceError::NetworkError.message(), "Network could not be built");
    assert_eq!(ServiceError::SpawnError.message(), "Service tasks lack a prerequisite");
    assert_eq!(ServiceError::CollatorStartError.message(), "Collator could not be started");
    assert_eq!(ServiceError::FullNodeStartError.message(), "Full node could not be started");
    assert_eq!(AssemblyError::StorageInit.into_service_error(), ServiceError::StorageInitError);
    assert_eq!(
        AssemblyError::ImportQueueInit.into_service_error(),
        ServiceError::ImportQueueInitError
    );
}

#[test]
fn second_attempt_on_a_locked_store_fails_with_storage_error() {
    let store = Rc::new(Cell::new(false));
    let mut first = open(ConfiguredRole::Full, false, 42).unwrap();
    let mut second = open(ConfiguredRole::Full, false, 42).unwrap();
    let mut first_services = Services::on_store(store.clone());
    let mut second_services = Services::on_store(store.clone());

    let event = first_services.perform(first.next_action().unwrap());
    assert!(first.advance(event));
    assert_eq!(first.stage(), Stage::Assembling);

    assert_eq!(run(&mut second, &mut second_services), Err(ServiceError::StorageInitError));
    assert_eq!(second.stage(), Stage::Failed(ServiceError::StorageInitError));
    assert_eq!(second_services.calls, vec![Action::Assemble]);
    assert_eq!(second.next_action(), None);

    assert_eq!(run(&mut first, &mut first_services), Ok(()));
    assert_eq!(first_services.calls.len(), 6);
}

#[test]
fn only_the_assembly_builds_a_client() {
    let actions = [
        Action::Assemble,
        Action::BuildNetwork,
        Action::BuildRpc,
        Action::SpawnTasks,
        Action::StartCollator { para_id: 42 },
        Action::StartFullNode { para_id: 42 },
        Action::ActivateNetwork,
    ];
    for action in actions {
        assert_eq!(action.builds(Component::Client), action == Action::Assemble);
        assert_eq!(action.is_given(Component::Client), !matches!(
            action,
            Action::Assemble | Action::ActivateNetwork
        ));
    }
    assert!(Action::Assemble.builds(Component::TransactionPool));
    assert!(Action::Assemble.builds(Component::ImportQueue));
    assert!(Action::BuildNetwork.is_given(Component::ImportQueue));
    assert!(Action::BuildNetwork.builds(Component::NetworkStarter));
    assert!(Action::ActivateNetwork.is_given(Component::NetworkStarter));
    assert!(!Action::BuildRpc.is_given(Component::Network));
    assert!(Action::SpawnTasks.is_given(Component::RpcFactory));
    assert!(Action::StartCollator { para_id: 1 }.builds(Component::ProposerFactory));
    assert!(!Action::StartFullNode { para_id: 1 }.builds(Component::ProposerFactory));
    assert!(!Action::StartFullNode { para_id: 1 }.is_given(Component::TransactionPool));
}
