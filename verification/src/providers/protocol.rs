//! The vocabulary between the library and its caller: actions, events,
//! outcomes, errors, and what an operation remembers between two steps.
use vstd::prelude::*;
use vstd::string::StringExecFns;

use crate::config::ConfigError;
use crate::text::{decimal, signed_text};
use crate::jobs::{jobs_view, Job, JobView};
use crate::providers::records::{
    instances_view, opt_text, reservations_view, servers_view, InstanceRecord, InstanceView,
    Reservation, ReservationView, ServerRecord, ServerRecordView,
};

verus! {

/// Where one call to a remote host stands.
#[derive(Clone, Copy, Debug, PartialEq, Eq, Structural)]
pub enum Phase {
    Connecting,
    Handshaking,
    Authenticating,
    ChannelOpen,
    Executing,
    Streaming,
    Closed,
}

/// The four kinds of failure that a command can end in.
#[derive(Clone, Copy, Debug, PartialEq, Eq, Structural)]
pub enum ErrorKind {
    Config,
    Provider,
    Transport,
    RemoteExecution,
}

/// Why an operation failed.
#[derive(Debug, Clone, PartialEq, Eq)]
pub enum JobError {
    /// A required setting is missing: nothing was asked of the provider.
    Config(ConfigError),
    /// The provider rejected the request, with its message.
    Provider(String),
    /// The provider knows no job of that identifier.
    NotFound,
    /// The host could not be reached or would not let us in; no command ran.
    Transport { phase: Phase, message: String },
    /// The channel failed while or after the command ran.
    RemoteExecution { phase: Phase, message: String },
    /// The command ended with a status other than zero.
    RemoteExit(i32),
}

/// What a `JobError` holds, as plain text.
pub enum JobErrorView {
    Config(ConfigError),
    Provider(Seq<char>),
    NotFound,
    Transport { phase: Phase, message: Seq<char> },
    RemoteExecution { phase: Phase, message: Seq<char> },
    RemoteExit(i32),
}

impl View for JobError {
    type V = JobErrorView;

    open spec fn view(&self) -> JobErrorView {
        match self {
            JobError::Config(e) => JobErrorView::Config(*e),
            JobError::Provider(m) => JobErrorView::Provider(m@),
            JobError::NotFound => JobErrorView::NotFound,
            JobError::Transport { phase, message } => JobErrorView::Transport {
                phase: *phase,
                message: message@,
            },
            JobError::RemoteExecution { phase, message } => JobErrorView::RemoteExecution {
                phase: *phase,
                message: message@,
            },
            JobError::RemoteExit(code) => JobErrorView::RemoteExit(*code),
        }
    }
}

impl JobErrorView {
    /// The kind of failure that the error is. An identifier that the provider
    /// does not know counts as the provider's refusal.
    pub open spec fn kind(self) -> ErrorKind {
        match self {
            JobErrorView::Config(_) => ErrorKind::Config,
            JobErrorView::Provider(_) => ErrorKind::Provider,
            JobErrorView::NotFound => ErrorKind::Provider,
            JobErrorView::Transport { .. } => ErrorKind::Transport,
            JobErrorView::RemoteExecution { .. } => ErrorKind::RemoteExecution,
            JobErrorView::RemoteExit(_) => ErrorKind::RemoteExecution,
        }
    }
}

/// The one line that tells the user of the error: its kind, then what went
/// wrong.
pub open spec fn description(error: JobErrorView) -> Seq<char> {
    match error {
        JobErrorView::Config(ConfigError::Missing(field)) => "configuration error: missing setting "@
            + field.spec_key(),
        JobErrorView::Provider(message) => "provider error: "@ + message,
        JobErrorView::NotFound => "provider error: job not found"@,
        JobErrorView::Transport { message, .. } => "transport error: "@ + message,
        JobErrorView::RemoteExecution { message, .. } => "remote execution error: "@ + message,
        JobErrorView::RemoteExit(code) => "remote execution error: exit status "@ + decimal(
            code as int,
        ),
    }
}

impl JobError {
    /// The one line that tells the user of the error.
    pub fn describe(&self) -> (line: String)
        ensures
            line@ == description(self@),
    {
        match self {
            JobError::Config(ConfigError::Missing(field)) => String::from_str(
                "configuration error: missing setting ",
            ).concat(field.key()),
            JobError::Provider(message) => String::from_str("provider error: ").concat(
                message.as_str(),
            ),
            JobError::NotFound => String::from_str("provider error: job not found"),
            JobError::Transport { message, .. } => String::from_str("transport error: ").concat(
                message.as_str(),
            ),
            JobError::RemoteExecution { message, .. } => String::from_str(
                "remote execution error: ",
            ).concat(message.as_str()),
            JobError::RemoteExit(code) => String::from_str(
                "remote execution error: exit status ",
            ).concat(signed_text(*code as i64).as_str()),
        }
    }

    /// The kind of failure that the error is.
    pub fn kind(&self) -> (k: ErrorKind)
        ensures
            k == self@.kind(),
    {
        match self {
            JobError::Config(_) => ErrorKind::Config,
            JobError::Provider(_) => ErrorKind::Provider,
            JobError::NotFound => ErrorKind::Provider,
            JobError::Transport { .. } => ErrorKind::Transport,
            JobError::RemoteExecution { .. } => ErrorKind::RemoteExecution,
            JobError::RemoteExit(_) => ErrorKind::RemoteExecution,
        }
    }
}

/// One request to a cloud provider's interface.
#[derive(Debug, Clone, PartialEq, Eq)]
pub enum CloudRequest {
    CreateServer {
        token: String,
        name: String,
        image: String,
        server_type: String,
        location: String,
        ssh_key: String,
        user_data: String,
    },
    GetServer { token: String, id: i64 },
    DeleteServer { token: String, id: i64 },
    ListServers { token: String },
    RunInstances {
        region: String,
        image: String,
        instance_type: String,
        key_name: String,
        name: String,
        min_count: i32,
        max_count: i32,
    },
    WaitUntilRunning { region: String, instance_id: String, budget_secs: u64 },
    /// `wanted` names the one instance to describe; `None` asks for all.
    DescribeInstances { region: String, wanted: Option<String> },
    TerminateInstances { region: String, instance_id: String },
}

/// What a `CloudRequest` holds, as plain text.
pub enum CloudRequestView {
    CreateServer {
        token: Seq<char>,
        name: Seq<char>,
        image: Seq<char>,
        server_type: Seq<char>,
        location: Seq<char>,
        ssh_key: Seq<char>,
        user_data: Seq<char>,
    },
    GetServer { token: Seq<char>, id: i64 },
    DeleteServer { token: Seq<char>, id: i64 },
    ListServers { token: Seq<char> },
    RunInstances {
        region: Seq<char>,
        image: Seq<char>,
        instance_type: Seq<char>,
        key_name: Seq<char>,
        name: Seq<char>,
        min_count: i32,
        max_count: i32,
    },
    WaitUntilRunning { region: Seq<char>, instance_id: Seq<char>, budget_secs: u64 },
    DescribeInstances { region: Seq<char>, wanted: Option<Seq<char>> },
    TerminateInstances { region: Seq<char>, instance_id: Seq<char> },
}

impl View for CloudRequest {
    type V = CloudRequestView;

    open spec fn view(&self) -> CloudRequestView {
        match self {
            CloudRequest::CreateServer {
                token,
                name,
                image,
                server_type,
                location,
                ssh_key,
                user_data,
            } => CloudRequestView::CreateServer {
                token: token@,
                name: name@,
                image: image@,
                server_type: server_type@,
                location: location@,
                ssh_key: ssh_key@,
                user_data: user_data@,
            },
            CloudRequest::GetServer { token, id } => CloudRequestView::GetServer {
                token: token@,
                id: *id,
            },
            CloudRequest::DeleteServer { token, id } => CloudRequestView::DeleteServer {
                token: token@,
                id: *id,
            },
            CloudRequest::ListServers { token } => CloudRequestView::ListServers { token: token@ },
            CloudRequest::RunInstances {
                region,
                image,
                instance_type,
                key_name,
                name,
                min_count,
                max_count,
            } => CloudRequestView::RunInstances {
                region: region@,
                image: image@,
                instance_type: instance_type@,
                key_name: key_name@,
                name: name@,
                min_count: *min_count,
                max_count: *max_count,
            },
            CloudRequest::WaitUntilRunning {
                region,
                instance_id,
                budget_secs,
            } => CloudRequestView::WaitUntilRunning {
                region: region@,
                instance_id: instance_id@,
                budget_secs: *budget_secs,
            },
            CloudRequest::DescribeInstances { region, wanted } => CloudRequestView::DescribeInstances {
                region: region@,
                wanted: opt_text(*wanted),
            },
            CloudRequest::TerminateInstances {
                region,
                instance_id,
            } => CloudRequestView::TerminateInstances {
                region: region@,
                instance_id: instance_id@,
            },
        }
    }
}

/// What a cloud provider answered.
#[derive(Debug, Clone, PartialEq, Eq)]
pub enum CloudReply {
    /// The server that was created.
    Created(ServerRecord),
    /// The server of the identifier asked for; `None` where there is none.
    Server(Option<ServerRecord>),
    /// All the servers of the account.
    Servers(Vec<ServerRecord>),
    /// The server is being deleted.
    Deleted,
    /// The instances that were launched.
    Launched(Vec<InstanceRecord>),
    /// The wait for a running instance is over: it runs, or the time is up.
    Waited { running: bool },
    /// The reservations that match.
    Described(Vec<Reservation>),
    /// The instance is being terminated.
    Terminated,
    /// The provider refused, with its message.
    Rejected(String),
}

/// What a `CloudReply` holds, as plain text.
pub enum CloudReplyView {
    Created(ServerRecordView),
    Server(Option<ServerRecordView>),
    Servers(Seq<ServerRecordView>),
    Deleted,
    Launched(Seq<InstanceView>),
    Waited { running: bool },
    Described(Seq<ReservationView>),
    Terminated,
    Rejected(Seq<char>),
}

impl View for CloudReply {
    type V = CloudReplyView;

    open spec fn view(&self) -> CloudReplyView {
        match self {
            CloudReply::Created(s) => CloudReplyView::Created(s@),
            CloudReply::Server(o) => CloudReplyView::Server(
                match o {
                    Some(s) => Some(s@),
                    None => None,
                },
            ),
            CloudReply::Servers(v) => CloudReplyView::Servers(servers_view(v@)),
            CloudReply::Deleted => CloudReplyView::Deleted,
            CloudReply::Launched(v) => CloudReplyView::Launched(instances_view(v@)),
            CloudReply::Waited { running } => CloudReplyView::Waited { running: *running },
            CloudReply::Described(v) => CloudReplyView::Described(reservations_view(v@)),
            CloudReply::Terminated => CloudReplyView::Terminated,
            CloudReply::Rejected(m) => CloudReplyView::Rejected(m@),
        }
    }
}

/// What came of the action that was asked for last.
#[derive(Debug, Clone, PartialEq, Eq)]
pub enum Event {
    /// The provider's answer to a request.
    Cloud(CloudReply),
    /// The action was done and has nothing to tell.
    Done,
    /// The action failed, with the message of what failed.
    Failed(String),
    /// All that the command wrote, read to the end.
    Text(String),
    /// The bytes of one read; none at all where the command has ended.
    Chunk(Vec<u8>),
    /// The read would have had to wait: nothing has come yet.
    WouldBlock,
    /// The status with which the command ended.
    Status(i32),
}

/// What an `Event` holds, as plain text.
pub enum EventView {
    Cloud(CloudReplyView),
    Done,
    Failed(Seq<char>),
    Text(Seq<char>),
    Chunk(Seq<u8>),
    WouldBlock,
    Status(i32),
}

impl View for Event {
    type V = EventView;

    open spec fn view(&self) -> EventView {
        match self {
            Event::Cloud(r) => EventView::Cloud(r@),
            Event::Done => EventView::Done,
            Event::Failed(m) => EventView::Failed(m@),
            Event::Text(t) => EventView::Text(t@),
            Event::Chunk(b) => EventView::Chunk(b@),
            Event::WouldBlock => EventView::WouldBlock,
            Event::Status(c) => EventView::Status(*c),
        }
    }
}

/// What an operation gives where it succeeds.
#[derive(Debug, Clone, PartialEq, Eq)]
pub enum Outcome {
    Started(Job),
    Found(Option<Job>),
    Stopped(Job),
    Listed(Vec<Job>),
    Completed,
}

/// What an `Outcome` holds, as plain text.
pub enum OutcomeView {
    Started(JobView),
    Found(Option<JobView>),
    Stopped(JobView),
    Listed(Seq<JobView>),
    Completed,
}

impl View for Outcome {
    type V = OutcomeView;

    open spec fn view(&self) -> OutcomeView {
        match self {
            Outcome::Started(j) => OutcomeView::Started(j@),
            Outcome::Found(o) => OutcomeView::Found(
                match o {
                    Some(j) => Some(j@),
                    None => None,
                },
            ),
            Outcome::Stopped(j) => OutcomeView::Stopped(j@),
            Outcome::Listed(v) => OutcomeView::Listed(jobs_view(v@)),
            Outcome::Completed => OutcomeView::Completed,
        }
    }
}

/// How an operation ended.
pub open spec fn result_view(r: Result<Outcome, JobError>) -> Result<OutcomeView, JobErrorView> {
    match r {
        Ok(o) => Ok(o@),
        Err(e) => Err(e@),
    }
}

/// What the caller is to do next. Each action but `Finish` is answered by
/// one event.
#[derive(Debug, PartialEq, Eq)]
pub enum Action {
    /// Put the request to the provider.
    Ask(CloudRequest),
    /// Start the bootstrap of the host in the background and go on at once.
    Detach { host: String, key_path: String },
    /// Open a connection to the host.
    Connect { host: String, port: u16 },
    /// Perform the SSH handshake.
    Handshake,
    /// Authenticate as `user` with the private key at `key_path`, without a passphrase.
    Authenticate { user: String, key_path: String },
    /// Open one command channel.
    OpenChannel,
    /// Run the command on the channel.
    Exec { command: String },
    /// Write all of `data` to the command's input.
    Write { data: String },
    /// Signal that the input has ended.
    SendEof,
    /// Read all that the command writes, to its end.
    ReadAll,
    /// Read once, at most `capacity` bytes.
    ReadChunk { capacity: usize },
    /// Wait until the channel is closed.
    WaitClose,
    /// Ask for the status with which the command ended.
    ExitStatus,
    /// The operation has ended.
    Finish(Result<Outcome, JobError>),
}

/// What an `Action` holds, as plain text.
pub enum ActionView {
    Ask(CloudRequestView),
    Detach { host: Seq<char>, key_path: Seq<char> },
    Connect { host: Seq<char>, port: u16 },
    Handshake,
    Authenticate { user: Seq<char>, key_path: Seq<char> },
    OpenChannel,
    Exec { command: Seq<char> },
    Write { data: Seq<char> },
    SendEof,
    ReadAll,
    ReadChunk { capacity: usize },
    WaitClose,
    ExitStatus,
    Finish(Result<OutcomeView, JobErrorView>),
}

impl View for Action {
    type V = ActionView;

    open spec fn view(&self) -> ActionView {
        match self {
            Action::Ask(r) => ActionView::Ask(r@),
            Action::Detach { host, key_path } => ActionView::Detach {
                host: host@,
                key_path: key_path@,
            },
            Action::Connect { host, port } => ActionView::Connect { host: host@, port: *port },
            Action::Handshake => ActionView::Handshake,
            Action::Authenticate { user, key_path } => ActionView::Authenticate {
                user: user@,
                key_path: key_path@,
            },
            Action::OpenChannel => ActionView::OpenChannel,
            Action::Exec { command } => ActionView::Exec { command: command@ },
            Action::Write { data } => ActionView::Write { data: data@ },
            Action::SendEof => ActionView::SendEof,
            Action::ReadAll => ActionView::ReadAll,
            Action::ReadChunk { capacity } => ActionView::ReadChunk { capacity: *capacity },
            Action::WaitClose => ActionView::WaitClose,
            Action::ExitStatus => ActionView::ExitStatus,
            Action::Finish(r) => ActionView::Finish(result_view(*r)),
        }
    }
}

/// What a command does on the remote host.
#[derive(Clone, Copy, Debug, PartialEq, Eq, Structural)]
pub enum Mode {
    /// Print the log once.
    Dump,
    /// Print the log as it grows.
    Follow,
    /// Copy files from the host.
    Copy,
    /// Run the install script.
    Install,
}

/// The step of a remote session whose answer is awaited.
#[derive(Clone, Copy, Debug, PartialEq, Eq, Structural)]
pub enum Stage {
    Connecting,
    Handshaking,
    Authenticating,
    Opening,
    Executing,
    Reading,
    Streaming,
    Feeding,
    Ending,
    Closing,
    Reporting,
}

/// What a remote session is to do once it is connected.
#[derive(Debug, Clone, PartialEq, Eq)]
pub struct Plan {
    pub mode: Mode,
    pub key_path: String,
    pub command: String,
}

/// What a `Plan` holds, as plain text.
pub struct PlanView {
    pub mode: Mode,
    pub key_path: Seq<char>,
    pub command: Seq<char>,
}

impl View for Plan {
    type V = PlanView;

    open spec fn view(&self) -> PlanView {
        PlanView { mode: self.mode, key_path: self.key_path@, command: self.command@ }
    }
}

/// What is to be done on the host of a job, once the job is found.
#[derive(Debug, Clone, PartialEq, Eq)]
pub enum Target {
    Tail { follow: bool, key_path: String },
    Scp { key_path: String, filename: String, destination: String },
}

/// What a `Target` holds, as plain text.
pub enum TargetView {
    Tail { follow: bool, key_path: Seq<char> },
    Scp { key_path: Seq<char>, filename: Seq<char>, destination: Seq<char> },
}

impl View for Target {
    type V = TargetView;

    open spec fn view(&self) -> TargetView {
        match self {
            Target::Tail { follow, key_path } => TargetView::Tail {
                follow: *follow,
                key_path: key_path@,
            },
            Target::Scp { key_path, filename, destination } => TargetView::Scp {
                key_path: key_path@,
                filename: filename@,
                destination: destination@,
            },
        }
    }
}

/// What an operation that is under way remembers between two steps.
#[derive(Debug, Clone, PartialEq, Eq)]
pub enum Pending {
    /// A server is being created.
    Creating { name: String, key_path: String },
    /// Instances are being launched.
    Launching { name: String, region: String, key_path: String },
    /// The wait for the launched instance to run is on.
    Settling { name: String, region: String, key_path: String, instance_id: String },
    /// The launched instance is being looked up for its address.
    Locating { name: String, key_path: String, instance_id: String },
    /// The bootstrap is being handed to the background.
    Detaching { job: Job },
    /// A job is being looked up.
    Fetching,
    /// A job is being stopped.
    Stopping { id: String },
    /// The jobs are being listed.
    Listing,
    /// A job is being looked up for a remote command.
    Resolving { target: Target },
    /// A remote session is under way.
    Session { stage: Stage, plan: Plan },
    /// The operation has ended.
    Finished,
}

/// What a `Pending` holds, as plain text.
pub enum PendingView {
    Creating { name: Seq<char>, key_path: Seq<char> },
    Launching { name: Seq<char>, region: Seq<char>, key_path: Seq<char> },
    Settling { name: Seq<char>, region: Seq<char>, key_path: Seq<char>, instance_id: Seq<char> },
    Locating { name: Seq<char>, key_path: Seq<char>, instance_id: Seq<char> },
    Detaching { job: JobView },
    Fetching,
    Stopping { id: Seq<char> },
    Listing,
    Resolving { target: TargetView },
    Session { stage: Stage, plan: PlanView },
    Finished,
}

impl View for Pending {
    type V = PendingView;

    open spec fn view(&self) -> PendingView {
        match self {
            Pending::Creating { name, key_path } => PendingView::Creating {
                name: name@,
                key_path: key_path@,
            },
            Pending::Launching { name, region, key_path } => PendingView::Launching {
                name: name@,
                region: region@,
                key_path: key_path@,
            },
            Pending::Settling { name, region, key_path, instance_id } => PendingView::Settling {
                name: name@,
                region: region@,
                key_path: key_path@,
                instance_id: instance_id@,
            },
            Pending::Locating { name, key_path, instance_id } => PendingView::Locating {
                name: name@,
                key_path: key_path@,
                instance_id: instance_id@,
            },
            Pending::Detaching { job } => PendingView::Detaching { job: job@ },
            Pending::Fetching => PendingView::Fetching,
            Pending::Stopping { id } => PendingView::Stopping { id: id@ },
            Pending::Listing => PendingView::Listing,
            Pending::Resolving { target } => PendingView::Resolving { target: target@ },
            Pending::Session { stage, plan } => PendingView::Session { stage: *stage, plan: plan@ },
            Pending::Finished => PendingView::Finished,
        }
    }
}

/// One step of an operation: what it remembers, what is to be printed now,
/// and what is to be done next.
#[derive(Debug, PartialEq, Eq)]
pub struct Transition {
    pub pending: Pending,
    pub output: Option<String>,
    pub action: Action,
}

/// What a `Transition` holds, as plain text.
pub struct TransitionView {
    pub pending: PendingView,
    pub output: Option<Seq<char>>,
    pub action: ActionView,
}

impl View for Transition {
    type V = TransitionView;

    open spec fn view(&self) -> TransitionView {
        TransitionView {
            pending: self.pending@,
            output: opt_text(self.output),
            action: self.action@,
        }
    }
}

} // verus!
