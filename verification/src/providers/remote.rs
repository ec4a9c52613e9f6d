//! One call to a remote host over SSH, step by step: the bootstrap, the
//! reading of the log, and the copying of files.
use vstd::prelude::*;
use vstd::string::StringExecFns;

use crate::providers::protocol::{
    result_view, Action, ActionView, Event, EventView, JobError, JobErrorView, Mode, Outcome,
    OutcomeView, Pending, PendingView, Phase, Plan, PlanView, Stage, Target, TargetView,
    Transition, TransitionView,
};
use crate::text::{decimal, signed_text};

verus! {

/// The port of the SSH service.
pub const SSH_PORT: u16 = 22;

/// The user as whom every remote command runs.
pub const REMOTE_USER: &'static str = "root";

/// The log on the remote host that `tail` reads.
pub const DEFAULT_LOG_FILE: &'static str = "/var/log/cloud-init-output.log";

/// The most that one read takes from a channel.
pub const READ_CAPACITY: usize = 1024;

/// The shell that takes the install script on its input.
pub const INSTALL_COMMAND: &'static str = "bash -s";

/// The script that sets up a fresh host.
pub const INSTALL_SCRIPT: &'static str = r#"#!/bin/bash
set -e
apt-get update
apt-get install -y curl git build-essential pkg-config libssl-dev
curl -fsSL https://deb.nodesource.com/setup_lts.x | bash -
apt-get install -y nodejs
curl https://sh.rustup.rs -sSf | sh -s -- -y
source "$HOME/.cargo/env"
curl -L https://foundry.paradigm.xyz | bash
"$HOME"/.foundry/bin/foundryup
"$HOME"/.cargo/bin/cargo install --locked echidna
"$HOME"/.cargo/bin/cargo install --locked --git https://github.com/crytic/medusa
"$HOME"/.cargo/bin/cargo install --locked --git https://github.com/crytic/halmos
"#;

/// The text that `String::from_utf8_lossy` makes of the bytes.
pub uninterp spec fn utf8_lossy(bytes: Seq<u8>) -> Seq<char>;

/// Turns bytes into text with `String::from_utf8_lossy`, which puts U+FFFD in
/// the place of what is no UTF-8. Believed: the text is the one that
/// `utf8_lossy` names for these bytes.
#[verifier::external_body]
fn lossy_text(bytes: &Vec<u8>) -> (text: String)
    ensures
        text@ == utf8_lossy(bytes@),
{
    String::from_utf8_lossy(bytes).into_owned()
}

/// The phase of a remote call in which a step of the session lies. The call
/// streams until its channel is closed and, where the command's status is
/// asked for, until that is read.
pub open spec fn stage_phase(stage: Stage) -> Phase {
    match stage {
        Stage::Connecting => Phase::Connecting,
        Stage::Handshaking => Phase::Handshaking,
        Stage::Authenticating => Phase::Authenticating,
        Stage::Opening => Phase::ChannelOpen,
        Stage::Executing => Phase::Executing,
        Stage::Reading => Phase::Streaming,
        Stage::Streaming => Phase::Streaming,
        Stage::Feeding => Phase::Streaming,
        Stage::Ending => Phase::Streaming,
        Stage::Closing => Phase::Streaming,
        Stage::Reporting => Phase::Streaming,
    }
}

/// The phase in which an operation stands.
pub open spec fn phase_of(pending: PendingView) -> Option<Phase> {
    match pending {
        PendingView::Session { stage, .. } => Some(stage_phase(stage)),
        PendingView::Finished => Some(Phase::Closed),
        _ => None,
    }
}

/// Whether a failure at this step comes before any remote command runs.
pub open spec fn before_command(stage: Stage) -> bool {
    stage is Connecting || stage is Handshaking || stage is Authenticating || stage is Opening
}

/// What an event says of a failure: its message, or that it answers nothing
/// that was asked.
pub open spec fn failure_text(event: EventView) -> Seq<char> {
    match event {
        EventView::Failed(m) => m,
        _ => "unexpected event"@,
    }
}

/// The error that ends a session at `stage` on an event that is not the
/// awaited answer.
pub open spec fn session_failure(stage: Stage, event: EventView) -> JobErrorView {
    if before_command(stage) {
        JobErrorView::Transport { phase: stage_phase(stage), message: failure_text(event) }
    } else {
        JobErrorView::RemoteExecution { phase: stage_phase(stage), message: failure_text(event) }
    }
}

/// The step that ends an operation.
pub open spec fn finish(result: Result<OutcomeView, JobErrorView>) -> TransitionView {
    TransitionView { pending: PendingView::Finished, output: None, action: ActionView::Finish(result) }
}

/// The step that goes on with the session, printing nothing.
pub open spec fn proceed(stage: Stage, plan: PlanView, action: ActionView) -> TransitionView {
    TransitionView { pending: PendingView::Session { stage, plan }, output: None, action }
}

/// The first step of a session with `host`.
pub open spec fn session_start(host: Seq<char>, plan: PlanView) -> TransitionView {
    proceed(Stage::Connecting, plan, ActionView::Connect { host, port: SSH_PORT })
}

/// What follows once the command has been started.
pub open spec fn after_exec(plan: PlanView) -> TransitionView {
    match plan.mode {
        Mode::Dump => proceed(Stage::Reading, plan, ActionView::ReadAll),
        Mode::Follow => proceed(
            Stage::Streaming,
            plan,
            ActionView::ReadChunk { capacity: READ_CAPACITY },
        ),
        Mode::Copy => proceed(
            Stage::Streaming,
            plan,
            ActionView::ReadChunk { capacity: READ_CAPACITY },
        ),
        Mode::Install => proceed(Stage::Feeding, plan, ActionView::Write { data: INSTALL_SCRIPT@ }),
    }
}

/// What follows once the channel has been closed.
pub open spec fn after_close(plan: PlanView) -> TransitionView {
    match plan.mode {
        Mode::Dump => proceed(Stage::Reporting, plan, ActionView::ExitStatus),
        Mode::Copy => proceed(Stage::Reporting, plan, ActionView::ExitStatus),
        Mode::Follow => finish(Ok(OutcomeView::Completed)),
        Mode::Install => finish(Ok(OutcomeView::Completed)),
    }
}

/// The last step of a command whose status is `code`: the status is printed
/// on a line of its own, and any status but zero is an error.
pub open spec fn report(code: i32) -> TransitionView {
    TransitionView {
        pending: PendingView::Finished,
        output: Some(decimal(code as int) + "\n"@),
        action: ActionView::Finish(
            if code == 0 {
                Ok(OutcomeView::Completed)
            } else {
                Err(JobErrorView::RemoteExit(code))
            },
        ),
    }
}

/// The step that a session at `stage` takes on `event`.
pub open spec fn session_next(stage: Stage, plan: PlanView, event: EventView) -> TransitionView {
    match (stage, event) {
        (Stage::Connecting, EventView::Done) => proceed(
            Stage::Handshaking,
            plan,
            ActionView::Handshake,
        ),
        (Stage::Handshaking, EventView::Done) => proceed(
            Stage::Authenticating,
            plan,
            ActionView::Authenticate { user: REMOTE_USER@, key_path: plan.key_path },
        ),
        (Stage::Authenticating, EventView::Done) => proceed(
            Stage::Opening,
            plan,
            ActionView::OpenChannel,
        ),
        (Stage::Opening, EventView::Done) => proceed(
            Stage::Executing,
            plan,
            ActionView::Exec { command: plan.command },
        ),
        (Stage::Executing, EventView::Done) => after_exec(plan),
        (Stage::Reading, EventView::Text(text)) => TransitionView {
            pending: PendingView::Session { stage: Stage::Closing, plan },
            output: Some(text),
            action: ActionView::WaitClose,
        },
        (Stage::Streaming, EventView::Chunk(bytes)) => if bytes.len() == 0 {
            proceed(Stage::Closing, plan, ActionView::WaitClose)
        } else {
            TransitionView {
                pending: PendingView::Session { stage: Stage::Streaming, plan },
                output: Some(utf8_lossy(bytes)),
                action: ActionView::ReadChunk { capacity: READ_CAPACITY },
            }
        },
        (Stage::Streaming, EventView::WouldBlock) => proceed(
            Stage::Streaming,
            plan,
            ActionView::ReadChunk { capacity: READ_CAPACITY },
        ),
        (Stage::Feeding, EventView::Done) => proceed(Stage::Ending, plan, ActionView::SendEof),
        (Stage::Ending, EventView::Done) => proceed(Stage::Closing, plan, ActionView::WaitClose),
        (Stage::Closing, EventView::Done) => after_close(plan),
        (Stage::Reporting, EventView::Status(code)) => report(code),
        _ => finish(Err(session_failure(stage, event))),
    }
}

/// The command that `tail` runs.
pub open spec fn tail_command(follow: bool) -> Seq<char> {
    if follow {
        "tail -f "@ + DEFAULT_LOG_FILE@
    } else {
        "cat "@ + DEFAULT_LOG_FILE@
    }
}

/// The command that `scp` runs.
pub open spec fn scp_command(host: Seq<char>, filename: Seq<char>, destination: Seq<char>) -> Seq<
    char,
> {
    "scp -r root@"@ + host + ":"@ + filename + " "@ + destination
}

/// What the session with `host` is to do for `target`.
pub open spec fn plan_for(target: TargetView, host: Seq<char>) -> PlanView {
    match target {
        TargetView::Tail { follow, key_path } => PlanView {
            mode: if follow {
                Mode::Follow
            } else {
                Mode::Dump
            },
            key_path,
            command: tail_command(follow),
        },
        TargetView::Scp { key_path, filename, destination } => PlanView {
            mode: Mode::Copy,
            key_path,
            command: scp_command(host, filename, destination),
        },
    }
}

/// The plan of the bootstrap.
pub open spec fn install_plan(key_path: Seq<char>) -> PlanView {
    PlanView { mode: Mode::Install, key_path, command: INSTALL_COMMAND@ }
}

/// The step that ends an operation with `result`.
pub fn end_with(result: Result<Outcome, JobError>) -> (t: Transition)
    ensures
        t@ == finish(result_view(result)),
{
    Transition { pending: Pending::Finished, output: None, action: Action::Finish(result) }
}

fn go_on(stage: Stage, plan: Plan, action: Action) -> (t: Transition)
    ensures
        t@ == proceed(stage, plan@, action@),
{
    Transition { pending: Pending::Session { stage, plan }, output: None, action }
}

fn read_chunk() -> (a: Action)
    ensures
        a@ == (ActionView::ReadChunk { capacity: READ_CAPACITY }),
{
    Action::ReadChunk { capacity: READ_CAPACITY }
}

fn fail_session(stage: Stage, event: Event) -> (t: Transition)
    ensures
        t@ == finish(Err(session_failure(stage, event@))),
{
    let message = match event {
        Event::Failed(m) => m,
        _ => String::from_str("unexpected event"),
    };
    let phase = match stage {
        Stage::Connecting => Phase::Connecting,
        Stage::Handshaking => Phase::Handshaking,
        Stage::Authenticating => Phase::Authenticating,
        Stage::Opening => Phase::ChannelOpen,
        Stage::Executing => Phase::Executing,
        _ => Phase::Streaming,
    };
    let early = match stage {
        Stage::Connecting => true,
        Stage::Handshaking => true,
        Stage::Authenticating => true,
        Stage::Opening => true,
        _ => false,
    };
    if early {
        end_with(Err(JobError::Transport { phase, message }))
    } else {
        end_with(Err(JobError::RemoteExecution { phase, message }))
    }
}

/// The first step of a session with `host`: to connect to its SSH port.
pub fn open_session(host: String, plan: Plan) -> (t: Transition)
    ensures
        t@ == session_start(host@, plan@),
{
    go_on(Stage::Connecting, plan, Action::Connect { host, port: SSH_PORT })
}

/// Takes a session one step on, from the answer to its last action.
pub fn resume_session(stage: Stage, plan: Plan, event: Event) -> (t: Transition)
    ensures
        t@ == session_next(stage, plan@, event@),
{
    match (stage, event) {
        (Stage::Connecting, Event::Done) => go_on(Stage::Handshaking, plan, Action::Handshake),
        (Stage::Handshaking, Event::Done) => {
            let key_path = plan.key_path.clone();
            go_on(
                Stage::Authenticating,
                plan,
                Action::Authenticate { user: String::from_str(REMOTE_USER), key_path },
            )
        },
        (Stage::Authenticating, Event::Done) => go_on(Stage::Opening, plan, Action::OpenChannel),
        (Stage::Opening, Event::Done) => {
            let command = plan.command.clone();
            go_on(Stage::Executing, plan, Action::Exec { command })
        },
        (Stage::Executing, Event::Done) => match plan.mode {
            Mode::Dump => go_on(Stage::Reading, plan, Action::ReadAll),
            Mode::Follow => go_on(Stage::Streaming, plan, read_chunk()),
            Mode::Copy => go_on(Stage::Streaming, plan, read_chunk()),
            Mode::Install => go_on(
                Stage::Feeding,
                plan,
                Action::Write { data: String::from_str(INSTALL_SCRIPT) },
            ),
        },
        (Stage::Reading, Event::Text(text)) => Transition {
            pending: Pending::Session { stage: Stage::Closing, plan },
            output: Some(text),
            action: Action::WaitClose,
        },
        (Stage::Streaming, Event::Chunk(bytes)) => {
            if bytes.len() == 0 {
                go_on(Stage::Closing, plan, Action::WaitClose)
            } else {
                Transition {
                    pending: Pending::Session { stage: Stage::Streaming, plan },
                    output: Some(lossy_text(&bytes)),
                    action: read_chunk(),
                }
            }
        },
        (Stage::Streaming, Event::WouldBlock) => go_on(Stage::Streaming, plan, read_chunk()),
        (Stage::Feeding, Event::Done) => go_on(Stage::Ending, plan, Action::SendEof),
        (Stage::Ending, Event::Done) => go_on(Stage::Closing, plan, Action::WaitClose),
        (Stage::Closing, Event::Done) => match plan.mode {
            Mode::Dump => go_on(Stage::Reporting, plan, Action::ExitStatus),
            Mode::Copy => go_on(Stage::Reporting, plan, Action::ExitStatus),
            Mode::Follow => end_with(Ok(Outcome::Completed)),
            Mode::Install => end_with(Ok(Outcome::Completed)),
        },
        (Stage::Reporting, Event::Status(code)) => {
            let line = signed_text(code as i64).concat("\n");
            Transition {
                pending: Pending::Finished,
                output: Some(line),
                action: Action::Finish(
                    if code == 0 {
                        Ok(Outcome::Completed)
                    } else {
                        Err(JobError::RemoteExit(code))
                    },
                ),
            }
        },
        (stage, event) => fail_session(stage, event),
    }
}

/// What the session with `host` is to do for `target`.
pub fn make_plan(target: Target, host: &str) -> (plan: Plan)
    ensures
        plan@ == plan_for(target@, host@),
{
    match target {
        Target::Tail { follow, key_path } => {
            if follow {
                Plan {
                    mode: Mode::Follow,
                    key_path,
                    command: String::from_str("tail -f ").concat(DEFAULT_LOG_FILE),
                }
            } else {
                Plan {
                    mode: Mode::Dump,
                    key_path,
                    command: String::from_str("cat ").concat(DEFAULT_LOG_FILE),
                }
            }
        },
        Target::Scp { key_path, filename, destination } => {
            let command = String::from_str("scp -r root@").concat(host).concat(":").concat(
                filename.as_str(),
            ).concat(" ").concat(destination.as_str());
            Plan { mode: Mode::Copy, key_path, command }
        },
    }
}

/// The first step of the bootstrap of the host at `ip`: a session that runs
/// the install script there, with the key at `key_path`.
pub fn install_over_ssh(ip: &str, key_path: &str) -> (t: Transition)
    ensures
        t@ == session_start(ip@, install_plan(key_path@)),
{
    let plan = Plan {
        mode: Mode::Install,
        key_path: String::from_str(key_path),
        command: String::from_str(INSTALL_COMMAND),
    };
    open_session(String::from_str(ip), plan)
}

} // verus!
