//! The errors that end a start attempt.

use vstd::prelude::*;

verus! {

/// Why the assembly of the partial components failed.
#[derive(Clone, Copy, Debug, PartialEq, Eq, Structural)]
pub enum AssemblyError {
    /// The storage backend could not be opened.
    StorageInit,
    /// The consensus layer could not set up the import queue.
    ImportQueueInit,
}

/// Why a start attempt ended. Every one of these is final for the attempt:
/// nothing is retried and no role is exchanged for another.
#[derive(Clone, Copy, Debug, PartialEq, Eq, Structural)]
pub enum ServiceError {
    /// The configured role is not supported.
    ConfigurationError,
    /// The storage backend could not be opened.
    StorageInitError,
    /// The import queue could not be set up.
    ImportQueueInitError,
    /// The network could not be built.
    NetworkError,
    /// A prerequisite of the service tasks was missing.
    SpawnError,
    /// The collator could not be started.
    CollatorStartError,
    /// The full node could not be started.
    FullNodeStartError,
}

impl ServiceError {
    /// The text that tells a user why the start attempt ended.
    pub open spec fn message_text(self) -> Seq<char> {
        match self {
            ServiceError::ConfigurationError => "Light client not supported!"@,
            ServiceError::StorageInitError => "Storage backend could not be opened"@,
            ServiceError::ImportQueueInitError => "Import queue could not be set up"@,
            ServiceError::NetworkError => "Network could not be built"@,
            ServiceError::SpawnError => "Service tasks lack a prerequisite"@,
            ServiceError::CollatorStartError => "Collator could not be started"@,
            ServiceError::FullNodeStartError => "Full node could not be started"@,
        }
    }

    /// The text that tells a user why the start attempt ended.
    pub fn message(&self) -> (text: String)
        ensures
            text@ == self.message_text(),
    {
        match self {
            ServiceError::ConfigurationError => String::from_str("Light client not supported!"),
            ServiceError::StorageInitError => String::from_str(
                "Storage backend could not be opened",
            ),
            ServiceError::ImportQueueInitError => String::from_str(
                "Import queue could not be set up",
            ),
            ServiceError::NetworkError => String::from_str("Network could not be built"),
            ServiceError::SpawnError => String::from_str("Service tasks lack a prerequisite"),
            ServiceError::CollatorStartError => String::from_str("Collator could not be started"),
            ServiceError::FullNodeStartError => String::from_str(
                "Full node could not be started",
            ),
        }
    }
}

impl AssemblyError {
    /// The service error that stands for this assembly error.
    pub open spec fn as_service_error(self) -> ServiceError {
        match self {
            AssemblyError::StorageInit => ServiceError::StorageInitError,
            AssemblyError::ImportQueueInit => ServiceError::ImportQueueInitError,
        }
    }

    /// Widens an assembly error to the error of the whole start attempt.
    pub fn into_service_error(self) -> (e: ServiceError)
        ensures
            e == self.as_service_error(),
    {
        match self {
            AssemblyError::StorageInit => ServiceError::StorageInitError,
            AssemblyError::ImportQueueInit => ServiceError::ImportQueueInitError,
        }
    }
}

} // verus!
