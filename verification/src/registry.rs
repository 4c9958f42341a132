//! The type-indexed store of registered configurations.

use crate::servers::auth::oidc::OIDCServerConfig;
use crate::servers::cloud::localstack::LocalStackServerConfig;
use crate::servers::database::postgres::PostgresServerConfig;
use crate::servers::database::redis::RedisServerConfig;
use crate::servers::hashi::consul::ConsulServerConfig;
use crate::servers::web::nginx::NginxServerConfig;
use crate::servers::webserver::nginx::NginxServerConfig as WebserverNginxServerConfig;
use crate::servers::hashi::counting::CountingServerConfig;
use crate::servers::hashi::vault::VaultServerConfig;
use vstd::prelude::*;

verus! {

/// Retains at most one configuration per concrete configuration type: one
/// optional slot per known service. Each [`crate::server::Config`]
/// implementation owns exactly one slot, and registering a configuration
/// overwrites the slot of its own type only.
pub struct ConfigStore {
    pub consul: Option<ConsulServerConfig>,
    pub counting: Option<CountingServerConfig>,
    pub localstack: Option<LocalStackServerConfig>,
    pub nginx: Option<NginxServerConfig>,
    pub oidc: Option<OIDCServerConfig>,
    pub postgres: Option<PostgresServerConfig>,
    pub redis: Option<RedisServerConfig>,
    pub vault: Option<VaultServerConfig>,
    pub webserver: Option<WebserverNginxServerConfig>,
}

impl ConfigStore {
    /// The store with every slot empty.
    pub open spec fn spec_empty() -> ConfigStore {
        ConfigStore {
            consul: None,
            counting: None,
            localstack: None,
            nginx: None,
            oidc: None,
            postgres: None,
            redis: None,
            vault: None,
            webserver: None,
        }
    }

    /// Creates a store with every slot empty.
    pub fn new() -> (s: ConfigStore)
        ensures
            s == Self::spec_empty(),
    {
        ConfigStore {
            consul: None,
            counting: None,
            localstack: None,
            nginx: None,
            oidc: None,
            postgres: None,
            redis: None,
            vault: None,
            webserver: None,
        }
    }
}

} // verus!
