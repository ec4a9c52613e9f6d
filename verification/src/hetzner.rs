//! The listing of the account's servers as such.
use vstd::prelude::*;

use crate::config::{config_of, first_missing, load_config, ConfigError};
use crate::database::Database;
use crate::providers::protocol::{CloudRequest, CloudRequestView};

verus! {

/// The configuration file that `list_servers` names.
pub const CONFIG_PATH: &'static str = "./config.toml";

/// The request that lists the servers of the account, with the token of the
/// configuration that the settings give; the first missing field where they
/// give no complete one.
pub fn list_servers(database: &Database) -> (r: Result<CloudRequest, ConfigError>)
    ensures
        match first_missing(config_of(database@)) {
            Some(field) => r == Err::<CloudRequest, ConfigError>(ConfigError::Missing(field)),
            None => r matches Ok(request) && request@ == (CloudRequestView::ListServers {
                token: config_of(database@).hcloud_api_token,
            }),
        },
{
    match load_config(CONFIG_PATH, database) {
        Ok(config) => Ok(CloudRequest::ListServers { token: config.hcloud_api_token }),
        Err(e) => Err(e),
    }
}

} // verus!
