use collator_service::assembly::{Assembly, AssemblyAction, AssemblyEvent, AssemblyStage};
use collator_service::error::AssemblyError;
use collator_service::wiring::Component;

#[test]
fn assembly_builds_storage_pool_and_queue_in_order() {
    let mut assembly = Assembly::new();
    assert_eq!(assembly.stage(), AssemblyStage::Empty);
    assert_eq!(assembly.outcome(), None);
    assert_eq!(assembly.next_action(), Some(AssemblyAction::OpenStorage));
    assert!(assembly.advance(AssemblyEvent::StorageOpened));
    assert_eq!(assembly.stage(), AssemblyStage::PartsReady);
    assert_eq!(assembly.next_action(), Some(AssemblyAction::BuildPool));
    assert!(assembly.advance(AssemblyEvent::PoolBuilt));
    assert_eq!(assembly.stage(), AssemblyStage::PoolReady);
    assert_eq!(assembly.next_action(), Some(AssemblyAction::BuildImportQueue));
    assert!(assembly.advance(AssemblyEvent::ImportQueueBuilt));
    assert_eq!(assembly.stage(), AssemblyStage::Complete);
    assert_eq!(assembly.next_action(), None);
    assert_eq!(assembly.outcome(), Some(Ok(())));
}

#[test]
fn storage_failure_is_a_storage_init_error() {
    let mut assembly = Assembly::new();
    assert!(assembly.advance(AssemblyEvent::StorageFailed));
    assert_eq!(assembly.stage(), AssemblyStage::Failed(AssemblyError::StorageInit));
    assert_eq!(assembly.outcome(), Some(Err(AssemblyError::StorageInit)));
    assert_eq!(assembly.next_action(), None);
}

#[test]
fn import_queue_failure_is_an_import_queue_init_error() {
    let mut assembly = Assembly::new();
    assert!(assembly.advance(AssemblyEvent::StorageOpened));
    assert!(assembly.advance(AssemblyEvent::PoolBuilt));
    assert!(assembly.advance(AssemblyEvent::ImportQueueFailed));
    assert_eq!(assembly.outcome(), Some(Err(AssemblyError::ImportQueueInit)));
    assert_eq!(assembly.next_action(), None);
}

#[test]
fn assembly_turns_down_reports_out_of_turn() {
    let all = [
        AssemblyEvent::StorageOpened,
        AssemblyEvent::StorageFailed,
        AssemblyEvent::PoolBuilt,
        AssemblyEvent::ImportQueueBuilt,
        AssemblyEvent::ImportQueueFailed,
    ];
    let mut assembly = Assembly::new();
    for event in [
        AssemblyEvent::PoolBuilt,
        AssemblyEvent::ImportQueueBuilt,
        AssemblyEvent::ImportQueueFailed,
    ] {
        assert!(!assembly.advance(event));
        assert_eq!(assembly.stage(), AssemblyStage::Empty);
    }
    assert!(assembly.advance(AssemblyEvent::StorageOpened));
    for event in all {
        if event != AssemblyEvent::PoolBuilt {
            assert!(!assembly.advance(event));
            assert_eq!(assembly.stage(), AssemblyStage::PartsReady);
        }
    }
    assert!(assembly.advance(AssemblyEvent::PoolBuilt));
    assert!(assembly.advance(AssemblyEvent::ImportQueueBuilt));
    for event in all {
        assert!(!assembly.advance(event));
        assert_eq!(assembly.stage(), AssemblyStage::Complete);
    }
}

#[test]
fn one_client_serves_pool_and_import_queue() {
    let parts =
        [AssemblyAction::OpenStorage, AssemblyAction::BuildPool, AssemblyAction::BuildImportQueue];
    let makers: Vec<&AssemblyAction> =
        parts.iter().filter(|part| part.builds(Component::Client)).collect();
    assert_eq!(makers, vec![&AssemblyAction::OpenStorage]);
    assert!(!AssemblyAction::OpenStorage.is_given(Component::Client));
    assert!(AssemblyAction::BuildPool.is_given(Component::Client));
    assert!(AssemblyAction::BuildImportQueue.is_given(Component::Client));
    assert!(AssemblyAction::BuildImportQueue.is_given(Component::InherentProviders));
    assert!(AssemblyAction::BuildPool.builds(Component::TransactionPool));
    assert!(AssemblyAction::BuildImportQueue.builds(Component::ImportQueue));
    assert!(!AssemblyAction::BuildImportQueue.builds(Component::Client));
}
