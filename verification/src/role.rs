//! The role a node is configured with, and the role it starts in.

use vstd::prelude::*;
use crate::error::ServiceError;

verus! {

/// The role named in a node's configuration.
#[derive(Clone, Copy, Debug, PartialEq, Eq, Structural)]
pub enum ConfiguredRole {
    Full,
    Light,
    Authority,
}

/// The role a node starts in. It is chosen once and never exchanged.
#[derive(Clone, Copy, Debug, PartialEq, Eq, Structural)]
pub enum Role {
    /// Produces parachain blocks and hands them to the relay chain.
    ValidatorCollator,
    /// Follows the parachain through the relay chain, producing nothing.
    SyncingFullNode,
}

/// The role that the validator flag asks for.
pub open spec fn role_of_flag(validator: bool) -> Role {
    if validator {
        Role::ValidatorCollator
    } else {
        Role::SyncingFullNode
    }
}

/// The starting role of a node: none for a light client, otherwise the one
/// that the validator flag asks for, whatever else the configuration says.
pub open spec fn selected_role(configured: ConfiguredRole, validator: bool) -> Result<
    Role,
    ServiceError,
> {
    if configured is Light {
        Err(ServiceError::ConfigurationError)
    } else {
        Ok(role_of_flag(validator))
    }
}

/// Chooses the starting role. A light client is turned away with
/// `ConfigurationError`; for every other configured role the validator flag
/// alone decides.
pub fn select_role(configured: ConfiguredRole, validator: bool) -> (chosen: Result<
    Role,
    ServiceError,
>)
    ensures
        chosen == selected_role(configured, validator),
        chosen is Err <==> configured is Light,
{
    match configured {
        ConfiguredRole::Light => Err(ServiceError::ConfigurationError),
        _ => if validator {
            Ok(Role::ValidatorCollator)
        } else {
            Ok(Role::SyncingFullNode)
        },
    }
}

} // verus!
