//! The adapter for the provider that launches, waits, and looks up.
use vstd::prelude::*;
use vstd::string::StringExecFns;

use crate::config::{load_config, Config, ConfigError, ConfigView, config_of, first_missing};
use crate::database::Database;
use crate::providers::lifecycle::{ask, send};
use crate::providers::protocol::{
    CloudRequest, CloudRequestView, Pending, PendingView, Target, TargetView, Transition,
    TransitionView,
};
use crate::providers::{configured, Provider, ProviderType};

verus! {

/// The adapter for a provider that launches an instance in the background
/// and names it by a text.
#[derive(Clone, Copy)]
pub struct AWSProvider {}

/// The first step of a start: the request that launches one instance, with
/// the image, type and key of the configuration, tagged with the name.
pub open spec fn start(config: ConfigView, name: Seq<char>) -> TransitionView {
    ask(
        PendingView::Launching { name, region: config.location, key_path: config.ssh_key_path },
        CloudRequestView::RunInstances {
            region: config.location,
            image: config.image,
            instance_type: config.server_type,
            key_name: config.ssh_key_name,
            name,
            min_count: 1,
            max_count: 1,
        },
    )
}

/// The first step of a look-up.
pub open spec fn get(config: ConfigView, job_id: Seq<char>) -> TransitionView {
    ask(
        PendingView::Fetching,
        CloudRequestView::DescribeInstances { region: config.location, wanted: Some(job_id) },
    )
}

/// The first step of a stop.
pub open spec fn stop(config: ConfigView, job_id: Seq<char>) -> TransitionView {
    ask(
        PendingView::Stopping { id: job_id },
        CloudRequestView::TerminateInstances { region: config.location, instance_id: job_id },
    )
}

/// The first step of a listing.
pub open spec fn list(config: ConfigView) -> TransitionView {
    ask(
        PendingView::Listing,
        CloudRequestView::DescribeInstances { region: config.location, wanted: None },
    )
}

/// The first step of a remote command on a job's host: the look-up of the job.
pub open spec fn resolve(config: ConfigView, job_id: Seq<char>, target: TargetView) -> TransitionView {
    ask(
        PendingView::Resolving { target },
        CloudRequestView::DescribeInstances { region: config.location, wanted: Some(job_id) },
    )
}

/// The configuration for one command, from the settings.
pub fn config(database: &Database) -> (r: Result<Config, ConfigError>)
    ensures
        match first_missing(config_of(database@)) {
            Some(field) => r == Err::<Config, ConfigError>(ConfigError::Missing(field)),
            None => r matches Ok(c) && c@ == config_of(database@),
        },
{
    load_config("", database)
}

fn describe(config: Config, job_id: &str, pending: Pending) -> (t: Transition)
    ensures
        t@ == ask(
            pending@,
            CloudRequestView::DescribeInstances {
                region: config@.location,
                wanted: Some(job_id@),
            },
        ),
{
    send(
        pending,
        CloudRequest::DescribeInstances {
            region: config.location,
            wanted: Some(String::from_str(job_id)),
        },
    )
}

impl AWSProvider {
    /// The adapter. It holds nothing: every call reads the settings anew.
    pub fn new() -> (p: AWSProvider)
        ensures
            p.kind() == ProviderType::AWS,
    {
        AWSProvider {  }
    }
}

impl Provider for AWSProvider {
    open spec fn kind(&self) -> ProviderType {
        ProviderType::AWS
    }

    fn start_job(&self, database: &Database, name: &str) -> (t: Transition) {
        match configured(database) {
            Err(t) => t,
            Ok(config) => send(
                Pending::Launching {
                    name: String::from_str(name),
                    region: config.location.clone(),
                    key_path: config.ssh_key_path,
                },
                CloudRequest::RunInstances {
                    region: config.location,
                    image: config.image,
                    instance_type: config.server_type,
                    key_name: config.ssh_key_name,
                    name: String::from_str(name),
                    min_count: 1,
                    max_count: 1,
                },
            ),
        }
    }

    fn get_job(&self, database: &Database, job_id: &str) -> (t: Transition) {
        match configured(database) {
            Err(t) => t,
            Ok(config) => describe(config, job_id, Pending::Fetching),
        }
    }

    fn stop_job(&self, database: &Database, job_id: &str) -> (t: Transition) {
        match configured(database) {
            Err(t) => t,
            Ok(config) => send(
                Pending::Stopping { id: String::from_str(job_id) },
                CloudRequest::TerminateInstances {
                    region: config.location,
                    instance_id: String::from_str(job_id),
                },
            ),
        }
    }

    fn list_jobs(&self, database: &Database) -> (t: Transition) {
        match configured(database) {
            Err(t) => t,
            Ok(config) => send(
                Pending::Listing,
                CloudRequest::DescribeInstances { region: config.location, wanted: None },
            ),
        }
    }

    fn tail(&self, database: &Database, job_id: &str, follow: bool) -> (t: Transition) {
        match configured(database) {
            Err(t) => t,
            Ok(config) => {
                let key_path = config.ssh_key_path.clone();
                describe(
                    config,
                    job_id,
                    Pending::Resolving { target: Target::Tail { follow, key_path } },
                )
            },
        }
    }

    fn scp(&self, database: &Database, job_id: &str, filename: &str, destination: &str) -> (t:
        Transition) {
        match configured(database) {
            Err(t) => t,
            Ok(config) => {
                let key_path = config.ssh_key_path.clone();
                describe(
                    config,
                    job_id,
                    Pending::Resolving {
                        target: Target::Scp {
                            key_path,
                            filename: String::from_str(filename),
                            destination: String::from_str(destination),
                        },
                    },
                )
            },
        }
    }
}

} // verus!
