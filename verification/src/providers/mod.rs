//! The providers' adapters: what each offers, and how one is picked.
use vstd::prelude::*;

use crate::config::{config_of, first_missing, load_config, Config, ConfigError};
use crate::database::Database;
use crate::providers::aws::AWSProvider;
use crate::providers::hetzner::HetznerProvider;
use crate::providers::protocol::{JobError, JobErrorView, TargetView, Transition, TransitionView};
use crate::providers::remote::{end_with, finish, install_plan, session_start};
use crate::text::same_text;

pub mod aws;
pub mod guarantees;
pub mod hetzner;
pub mod lifecycle;
pub mod protocol;
pub mod records;
pub mod remote;

pub use crate::providers::remote::install_over_ssh;

verus! {

/// The provider that serves where the settings name none.
pub const DEFAULT_PROVIDER: &'static str = "hetzner";

/// The providers that there are.
#[derive(Clone, Copy, Debug, PartialEq, Eq, Structural)]
pub enum ProviderType {
    Hetzner,
    AWS,
}

/// The key under which the settings hold the provider's name.
pub const PROVIDER_KEY: &'static str = "provider";

/// The name of the provider that the settings choose: the one they hold, or
/// the default one where they hold none.
pub open spec fn chosen_name(settings: Map<Seq<char>, Seq<char>>) -> Seq<char> {
    if settings.contains_key(PROVIDER_KEY@) {
        settings[PROVIDER_KEY@]
    } else {
        DEFAULT_PROVIDER@
    }
}

/// The provider that goes by `name`, if one does.
pub open spec fn provider_named(name: Seq<char>) -> Option<ProviderType> {
    if name == "hetzner"@ {
        Some(ProviderType::Hetzner)
    } else if name == "aws"@ {
        Some(ProviderType::AWS)
    } else {
        None
    }
}

/// The step that a command begins with: the end of it, with the first
/// missing field, where the settings give no complete configuration; the
/// step `ready` otherwise.
pub open spec fn guarded(settings: Map<Seq<char>, Seq<char>>, ready: TransitionView) -> TransitionView {
    match first_missing(config_of(settings)) {
        Some(field) => finish(Err(JobErrorView::Config(ConfigError::Missing(field)))),
        None => ready,
    }
}

/// The first step of starting a job called `name`.
pub open spec fn start_step(
    kind: ProviderType,
    settings: Map<Seq<char>, Seq<char>>,
    name: Seq<char>,
) -> TransitionView {
    guarded(
        settings,
        match kind {
            ProviderType::Hetzner => hetzner::start(config_of(settings), name),
            ProviderType::AWS => aws::start(config_of(settings), name),
        },
    )
}

/// The first step of looking up the job `job_id`.
pub open spec fn get_step(
    kind: ProviderType,
    settings: Map<Seq<char>, Seq<char>>,
    job_id: Seq<char>,
) -> TransitionView {
    guarded(
        settings,
        match kind {
            ProviderType::Hetzner => hetzner::get(config_of(settings), job_id),
            ProviderType::AWS => aws::get(config_of(settings), job_id),
        },
    )
}

/// The first step of stopping the job `job_id`.
pub open spec fn stop_step(
    kind: ProviderType,
    settings: Map<Seq<char>, Seq<char>>,
    job_id: Seq<char>,
) -> TransitionView {
    guarded(
        settings,
        match kind {
            ProviderType::Hetzner => hetzner::stop(config_of(settings), job_id),
            ProviderType::AWS => aws::stop(config_of(settings), job_id),
        },
    )
}

/// The first step of listing the jobs.
pub open spec fn list_step(kind: ProviderType, settings: Map<Seq<char>, Seq<char>>) -> TransitionView {
    guarded(
        settings,
        match kind {
            ProviderType::Hetzner => hetzner::list(config_of(settings)),
            ProviderType::AWS => aws::list(config_of(settings)),
        },
    )
}

/// The first step of a remote command on the host of the job `job_id`.
pub open spec fn resolve_step(
    kind: ProviderType,
    settings: Map<Seq<char>, Seq<char>>,
    job_id: Seq<char>,
    target: TargetView,
) -> TransitionView {
    guarded(
        settings,
        match kind {
            ProviderType::Hetzner => hetzner::resolve(config_of(settings), job_id, target),
            ProviderType::AWS => aws::resolve(config_of(settings), job_id, target),
        },
    )
}

/// The first step of printing the log of the job `job_id`.
pub open spec fn tail_step(
    kind: ProviderType,
    settings: Map<Seq<char>, Seq<char>>,
    job_id: Seq<char>,
    follow: bool,
) -> TransitionView {
    resolve_step(
        kind,
        settings,
        job_id,
        TargetView::Tail { follow, key_path: config_of(settings).ssh_key_path },
    )
}

/// The first step of copying `filename` from the host of the job `job_id`.
pub open spec fn scp_step(
    kind: ProviderType,
    settings: Map<Seq<char>, Seq<char>>,
    job_id: Seq<char>,
    filename: Seq<char>,
    destination: Seq<char>,
) -> TransitionView {
    resolve_step(
        kind,
        settings,
        job_id,
        TargetView::Scp { key_path: config_of(settings).ssh_key_path, filename, destination },
    )
}

/// The configuration for one command, or the step that ends the command
/// where the settings give none.
pub fn configured(database: &Database) -> (r: Result<Config, Transition>)
    ensures
        match first_missing(config_of(database@)) {
            Some(field) => r matches Err(t) && t@ == finish(
                Err(JobErrorView::Config(ConfigError::Missing(field))),
            ),
            None => r matches Ok(config) && config@ == config_of(database@),
        },
{
    match load_config("", database) {
        Ok(config) => Ok(config),
        Err(e) => Err(end_with(Err(JobError::Config(e)))),
    }
}

/// What every provider's adapter offers. Each method gives the first step
/// of its operation; `lifecycle::resume` gives every later one.
pub trait Provider {
    /// Which provider the adapter serves.
    spec fn kind(&self) -> ProviderType;

    fn start_job(&self, database: &Database, name: &str) -> (t: Transition)
        ensures
            t@ == start_step(self.kind(), database@, name@),
    ;

    fn get_job(&self, database: &Database, job_id: &str) -> (t: Transition)
        ensures
            t@ == get_step(self.kind(), database@, job_id@),
    ;

    fn stop_job(&self, database: &Database, job_id: &str) -> (t: Transition)
        ensures
            t@ == stop_step(self.kind(), database@, job_id@),
    ;

    fn list_jobs(&self, database: &Database) -> (t: Transition)
        ensures
            t@ == list_step(self.kind(), database@),
    ;

    fn tail(&self, database: &Database, job_id: &str, follow: bool) -> (t: Transition)
        ensures
            t@ == tail_step(self.kind(), database@, job_id@, follow),
    ;

    fn scp(&self, database: &Database, job_id: &str, filename: &str, destination: &str) -> (t:
        Transition)
        ensures
            t@ == scp_step(self.kind(), database@, job_id@, filename@, destination@),
    ;
}

impl ProviderType {
    /// The provider that goes by `name`, if one does.
    pub fn from_name(name: &str) -> (r: Option<ProviderType>)
        ensures
            r == provider_named(name@),
    {
        if same_text(name, "hetzner") {
            Some(ProviderType::Hetzner)
        } else if same_text(name, "aws") {
            Some(ProviderType::AWS)
        } else {
            None
        }
    }
}

impl Provider for ProviderType {
    open spec fn kind(&self) -> ProviderType {
        *self
    }

    fn start_job(&self, database: &Database, name: &str) -> (t: Transition) {
        match self {
            ProviderType::Hetzner => HetznerProvider::new().start_job(database, name),
            ProviderType::AWS => AWSProvider::new().start_job(database, name),
        }
    }

    fn get_job(&self, database: &Database, job_id: &str) -> (t: Transition) {
        match self {
            ProviderType::Hetzner => HetznerProvider::new().get_job(database, job_id),
            ProviderType::AWS => AWSProvider::new().get_job(database, job_id),
        }
    }

    fn stop_job(&self, database: &Database, job_id: &str) -> (t: Transition) {
        match self {
            ProviderType::Hetzner => HetznerProvider::new().stop_job(database, job_id),
            ProviderType::AWS => AWSProvider::new().stop_job(database, job_id),
        }
    }

    fn list_jobs(&self, database: &Database) -> (t: Transition) {
        match self {
            ProviderType::Hetzner => HetznerProvider::new().list_jobs(database),
            ProviderType::AWS => AWSProvider::new().list_jobs(database),
        }
    }

    fn tail(&self, database: &Database, job_id: &str, follow: bool) -> (t: Transition) {
        match self {
            ProviderType::Hetzner => HetznerProvider::new().tail(database, job_id, follow),
            ProviderType::AWS => AWSProvider::new().tail(database, job_id, follow),
        }
    }

    fn scp(&self, database: &Database, job_id: &str, filename: &str, destination: &str) -> (t:
        Transition) {
        match self {
            ProviderType::Hetzner => HetznerProvider::new().scp(
                database,
                job_id,
                filename,
                destination,
            ),
            ProviderType::AWS => AWSProvider::new().scp(database, job_id, filename, destination),
        }
    }
}

/// Picks the adapter that serves a command.
pub struct ProviderFactory;

impl ProviderFactory {
    /// The adapter of the provider called `name`, which is one of the names
    /// that `ProviderType::from_name` knows.
    pub fn new(name: &str) -> (provider: ProviderType)
        requires
            provider_named(name@) is Some,
        ensures
            Some(provider) == provider_named(name@),
    {
        match ProviderType::from_name(name) {
            Some(provider) => provider,
            None => ProviderType::Hetzner,
        }
    }

    /// The adapter of the provider that the settings choose; `None` where
    /// they hold a name that no provider goes by.
    pub fn from_settings(database: &Database) -> (r: Option<ProviderType>)
        ensures
            r == provider_named(chosen_name(database@)),
    {
        match database.get(PROVIDER_KEY) {
            Some(name) => ProviderType::from_name(name.as_str()),
            None => ProviderType::from_name(DEFAULT_PROVIDER),
        }
    }

    /// The first step of setting up the host at `ip`, for a caller who waits
    /// for the end of it and is told how it went.
    pub fn install_dependencies(&self, ip: &str, key_path: &str) -> (t: Transition)
        ensures
            t@ == session_start(ip@, install_plan(key_path@)),
    {
        install_over_ssh(ip, key_path)
    }
}

} // verus!
