//! The adapter for the provider that creates a server in one call.
use vstd::prelude::*;

use crate::config::{Config, ConfigView};
use crate::database::Database;
use crate::providers::lifecycle::{ask, send};
use crate::providers::protocol::{
    CloudRequest, CloudRequestView, JobError, JobErrorView, Outcome, OutcomeView, Pending,
    PendingView, Target, TargetView, Transition, TransitionView,
};
use crate::providers::remote::{end_with, finish};
use crate::providers::{configured, Provider, ProviderType};
use crate::text::{parse_decimal, parse_signed};
use vstd::string::StringExecFns;

verus! {

/// The adapter for a provider that creates a server in one call and names it
/// by a number.
#[derive(Clone, Copy)]
pub struct HetznerProvider {}

/// The first step of a start: one request that creates the server, with the
/// image, type, location, key and user data of the configuration.
pub open spec fn start(config: ConfigView, name: Seq<char>) -> TransitionView {
    ask(
        PendingView::Creating { name, key_path: config.ssh_key_path },
        CloudRequestView::CreateServer {
            token: config.hcloud_api_token,
            name,
            image: config.image,
            server_type: config.server_type,
            location: config.location,
            ssh_key: config.ssh_key_name,
            user_data: config.user_data,
        },
    )
}

/// The first step of a look-up. An identifier that is no number names no
/// server: the look-up ends at once and finds nothing.
pub open spec fn get(config: ConfigView, job_id: Seq<char>) -> TransitionView {
    match parse_decimal(job_id) {
        Some(id) => ask(
            PendingView::Fetching,
            CloudRequestView::GetServer { token: config.hcloud_api_token, id: id as i64 },
        ),
        None => finish(Ok(OutcomeView::Found(None))),
    }
}

/// The first step of a stop. An identifier that is no number is refused as
/// the provider would refuse it.
pub open spec fn stop(config: ConfigView, job_id: Seq<char>) -> TransitionView {
    match parse_decimal(job_id) {
        Some(id) => ask(
            PendingView::Stopping { id: job_id },
            CloudRequestView::DeleteServer { token: config.hcloud_api_token, id: id as i64 },
        ),
        None => finish(Err(JobErrorView::Provider("invalid server id"@))),
    }
}

/// The first step of a listing.
pub open spec fn list(config: ConfigView) -> TransitionView {
    ask(PendingView::Listing, CloudRequestView::ListServers { token: config.hcloud_api_token })
}

/// The first step of a remote command on a job's host: the look-up of the
/// job. An identifier that is no number names no job.
pub open spec fn resolve(config: ConfigView, job_id: Seq<char>, target: TargetView) -> TransitionView {
    match parse_decimal(job_id) {
        Some(id) => ask(
            PendingView::Resolving { target },
            CloudRequestView::GetServer { token: config.hcloud_api_token, id: id as i64 },
        ),
        None => finish(Err(JobErrorView::NotFound)),
    }
}

fn begin_resolve(config: Config, job_id: &str, target: Target) -> (t: Transition)
    ensures
        t@ == resolve(config@, job_id@, target@),
{
    match parse_signed(job_id) {
        Some(id) => send(
            Pending::Resolving { target },
            CloudRequest::GetServer { token: config.hcloud_api_token, id },
        ),
        None => end_with(Err(JobError::NotFound)),
    }
}

impl HetznerProvider {
    /// The adapter. It holds nothing: every call reads the settings anew.
    pub fn new() -> (p: HetznerProvider)
        ensures
            p.kind() == ProviderType::Hetzner,
    {
        HetznerProvider {  }
    }
}

impl Default for HetznerProvider {
    fn default() -> (p: HetznerProvider)
        ensures
            p.kind() == ProviderType::Hetzner,
    {
        HetznerProvider::new()
    }
}

impl Provider for HetznerProvider {
    open spec fn kind(&self) -> ProviderType {
        ProviderType::Hetzner
    }

    fn start_job(&self, database: &Database, name: &str) -> (t: Transition) {
        match configured(database) {
            Err(t) => t,
            Ok(config) => send(
                Pending::Creating { name: String::from_str(name), key_path: config.ssh_key_path },
                CloudRequest::CreateServer {
                    token: config.hcloud_api_token,
                    name: String::from_str(name),
                    image: config.image,
                    server_type: config.server_type,
                    location: config.location,
                    ssh_key: config.ssh_key_name,
                    user_data: config.user_data,
                },
            ),
        }
    }

    fn get_job(&self, database: &Database, job_id: &str) -> (t: Transition) {
        match configured(database) {
            Err(t) => t,
            Ok(config) => match parse_signed(job_id) {
                Some(id) => send(
                    Pending::Fetching,
                    CloudRequest::GetServer { token: config.hcloud_api_token, id },
                ),
                None => end_with(Ok(Outcome::Found(None))),
            },
        }
    }

    fn stop_job(&self, database: &Database, job_id: &str) -> (t: Transition) {
        match configured(database) {
            Err(t) => t,
            Ok(config) => match parse_signed(job_id) {
                Some(id) => send(
                    Pending::Stopping { id: String::from_str(job_id) },
                    CloudRequest::DeleteServer { token: config.hcloud_api_token, id },
                ),
                None => end_with(Err(JobError::Provider(String::from_str("invalid server id")))),
            },
        }
    }

    fn list_jobs(&self, database: &Database) -> (t: Transition) {
        match configured(database) {
            Err(t) => t,
            Ok(config) => send(
                Pending::Listing,
                CloudRequest::ListServers { token: config.hcloud_api_token },
            ),
        }
    }

    fn tail(&self, database: &Database, job_id: &str, follow: bool) -> (t: Transition) {
        match configured(database) {
            Err(t) => t,
            Ok(config) => {
                let key_path = config.ssh_key_path.clone();
                begin_resolve(config, job_id, Target::Tail { follow, key_path })
            },
        }
    }

    fn scp(&self, database: &Database, job_id: &str, filename: &str, destination: &str) -> (t:
        Transition) {
        match configured(database) {
            Err(t) => t,
            Ok(config) => {
                let key_path = config.ssh_key_path.clone();
                begin_resolve(
                    config,
                    job_id,
                    Target::Scp {
                        key_path,
                        filename: String::from_str(filename),
                        destination: String::from_str(destination),
                    },
                )
            },
        }
    }
}

} // verus!
