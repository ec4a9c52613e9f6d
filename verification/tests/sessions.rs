use ffs::database::Database;
use ffs::providers::lifecycle::resume;
use ffs::providers::protocol::{
    Action, CloudReply, CloudRequest, ErrorKind, Event, JobError, Mode, Outcome, Pending, Phase,
    Plan, Stage, Target, Transition,
};
use ffs::providers::records::{InstanceRecord, Reservation, ServerRecord};
use ffs::providers::remote::{
    install_over_ssh, make_plan, open_session, resume_session, DEFAULT_LOG_FILE, INSTALL_COMMAND,
    INSTALL_SCRIPT, READ_CAPACITY, REMOTE_USER, SSH_PORT,
};
use ffs::providers::{Provider, ProviderFactory, ProviderType};

fn settings() -> Database {
    let mut db = Database::new();
    db.set("hcloud_token", "SECRET-REDACTED").unwrap();
    db.set("ssh_key_path", "/keys/id").unwrap();
    db.set("ssh_key_name", "laptop").unwrap();
    db.set("image", "ubuntu-24.04").unwrap();
    db.set("server_type", "cx22").unwrap();
    db.set("location", "fsn1").unwrap();
    db.set("user_data", "#cloud-config").unwrap();
    db
}

fn found_server(ip: &str) -> Event {
    Event::Cloud(CloudReply::Server(Some(ServerRecord {
        id: 4711,
        name: "web".to_string(),
        ipv4: Some(ip.to_string()),
    })))
}

fn plan(mode: Mode) -> Plan {
    Plan { mode, key_path: "/keys/id".to_string(), command: "run".to_string() }
}

fn session(stage: Stage, mode: Mode) -> Pending {
    Pending::Session { stage, plan: plan(mode) }
}

fn finished(result: Result<Outcome, JobError>) -> Transition {
    Transition { pending: Pending::Finished, output: None, action: Action::Finish(result) }
}

/// Plays the events one after another and gives what was printed, the
/// actions that were asked for, and the last step.
fn play(first: Transition, events: Vec<Event>) -> (Vec<String>, Vec<Action>, Transition) {
    let mut printed = Vec::new();
    let mut actions = Vec::new();
    let mut t = first;
    for event in events {
        if let Some(text) = t.output.take() {
            printed.push(text);
        }
        actions.push(t.action);
        t = resume(t.pending, event);
    }
    if let Some(text) = t.output.take() {
        printed.push(text);
    }
    (printed, actions, t)
}

#[test]
fn remote_constants() {
    assert_eq!(SSH_PORT, 22);
    assert_eq!(REMOTE_USER, "root");
    assert_eq!(READ_CAPACITY, 1024);
    assert_eq!(INSTALL_COMMAND, "bash -s");
    assert!(DEFAULT_LOG_FILE.starts_with('/'));
}

#[test]
fn install_script_holds_each_step() {
    let lines: Vec<&str> = INSTALL_SCRIPT.lines().collect();
    assert_eq!(lines.len(), 13);
    assert_eq!(lines[0], "#!/bin/bash");
    assert_eq!(lines[1], "set -e");
    assert_eq!(lines[2], "apt-get update");
    assert_eq!(lines[3], "apt-get install -y curl git build-essential pkg-config libssl-dev");
    assert_eq!(lines[4], "curl -fsSL https://deb.nodesource.com/setup_lts.x | bash -");
    assert_eq!(lines[5], "apt-get install -y nodejs");
    assert_eq!(lines[6], "curl https://sh.rustup.rs -sSf | sh -s -- -y");
    assert_eq!(lines[7], "source \"$HOME/.cargo/env\"");
    assert_eq!(lines[8], "curl -L https://foundry.paradigm.xyz | bash");
    assert_eq!(lines[9], "\"$HOME\"/.foundry/bin/foundryup");
    assert_eq!(lines[10], "\"$HOME\"/.cargo/bin/cargo install --locked echidna");
    assert_eq!(
        lines[11],
        "\"$HOME\"/.cargo/bin/cargo install --locked --git https://github.com/crytic/medusa"
    );
    assert_eq!(
        lines[12],
        "\"$HOME\"/.cargo/bin/cargo install --locked --git https://github.com/crytic/halmos"
    );
    assert!(INSTALL_SCRIPT.ends_with("halmos\n"));
}

#[test]
fn plans_hold_the_commands() {
    let p = make_plan(Target::Tail { follow: false, key_path: "/k".to_string() }, "1.2.3.4");
    assert_eq!(
        p,
        Plan { mode: Mode::Dump, key_path: "/k".to_string(), command: format!("cat {}", DEFAULT_LOG_FILE) }
    );
    let p = make_plan(Target::Tail { follow: true, key_path: "/k".to_string() }, "1.2.3.4");
    assert_eq!(
        p,
        Plan {
            mode: Mode::Follow,
            key_path: "/k".to_string(),
            command: format!("tail -f {}", DEFAULT_LOG_FILE),
        }
    );
    let p = make_plan(
        Target::Scp {
            key_path: "/k".to_string(),
            filename: "/root/out".to_string(),
            destination: "./here".to_string(),
        },
        "1.2.3.4",
    );
    assert_eq!(
        p,
        Plan {
            mode: Mode::Copy,
            key_path: "/k".to_string(),
            command: "scp -r root@1.2.3.4:/root/out ./here".to_string(),
        }
    );
}

#[test]
fn session_walks_through_its_phases() {
    let t = open_session("1.2.3.4".to_string(), plan(Mode::Follow));
    assert_eq!(t.action, Action::Connect { host: "1.2.3.4".to_string(), port: 22 });
    assert_eq!(t.pending, session(Stage::Connecting, Mode::Follow));
    let t = resume(t.pending, Event::Done);
    assert_eq!(t.action, Action::Handshake);
    let t = resume(t.pending, Event::Done);
    assert_eq!(
        t.action,
        Action::Authenticate { user: "root".to_string(), key_path: "/keys/id".to_string() }
    );
    let t = resume(t.pending, Event::Done);
    assert_eq!(t.action, Action::OpenChannel);
    let t = resume(t.pending, Event::Done);
    assert_eq!(t.action, Action::Exec { command: "run".to_string() });
    assert_eq!(t.pending, session(Stage::Executing, Mode::Follow));
    let t = resume(t.pending, Event::Done);
    assert_eq!(t.action, Action::ReadChunk { capacity: 1024 });
    assert_eq!(t.pending, session(Stage::Streaming, Mode::Follow));
}

#[test]
fn failure_before_the_command_is_a_transport_error() {
    let cases = [
        (Stage::Connecting, Phase::Connecting),
        (Stage::Handshaking, Phase::Handshaking),
        (Stage::Authenticating, Phase::Authenticating),
        (Stage::Opening, Phase::ChannelOpen),
    ];
    for (stage, phase) in cases {
        let t = resume_session(stage, plan(Mode::Dump), Event::Failed("refused".to_string()));
        let expected = JobError::Transport { phase, message: "refused".to_string() };
        assert_eq!(expected.kind(), ErrorKind::Transport);
        assert_eq!(t, finished(Err(expected)));
    }
}

#[test]
fn failure_from_the_command_on_is_a_remote_execution_error() {
    let cases = [
        (Stage::Executing, Phase::Executing),
        (Stage::Reading, Phase::Streaming),
        (Stage::Streaming, Phase::Streaming),
        (Stage::Feeding, Phase::Streaming),
        (Stage::Ending, Phase::Streaming),
        (Stage::Closing, Phase::Streaming),
        (Stage::Reporting, Phase::Streaming),
    ];
    for (stage, phase) in cases {
        let t = resume_session(stage, plan(Mode::Copy), Event::Failed("broken pipe".to_string()));
        let expected = JobError::RemoteExecution { phase, message: "broken pipe".to_string() };
        assert_eq!(expected.kind(), ErrorKind::RemoteExecution);
        assert_eq!(t, finished(Err(expected)));
    }
}

#[test]
fn an_event_that_answers_nothing_fails_the_session() {
    let t = resume_session(Stage::Connecting, plan(Mode::Dump), Event::Status(0));
    assert_eq!(
        t,
        finished(Err(JobError::Transport {
            phase: Phase::Connecting,
            message: "unexpected event".to_string(),
        }))
    );
    let t = resume_session(Stage::Reading, plan(Mode::Dump), Event::Chunk(vec![1]));
    assert_eq!(
        t,
        finished(Err(JobError::RemoteExecution {
            phase: Phase::Streaming,
            message: "unexpected event".to_string(),
        }))
    );
}

#[test]
fn tail_without_follow_prints_the_log_exactly_once() {
    let first = ProviderType::Hetzner.tail(&settings(), "4711", false);
    assert_eq!(
        first.action,
        Action::Ask(CloudRequest::GetServer { token: "SECRET-REDACTED".to_string(), id: 4711 })
    );
    let events = vec![
        found_server("10.0.0.1"),
        Event::Done,
        Event::Done,
        Event::Done,
        Event::Done,
        Event::Done,
        Event::Text("line one\nline two\n".to_string()),
        Event::Done,
        Event::Status(0),
    ];
    let (printed, actions, last) = play(first, events);
    assert_eq!(printed, vec!["line one\nline two\n".to_string(), "0\n".to_string()]);
    assert_eq!(last.action, Action::Finish(Ok(Outcome::Completed)));
    assert_eq!(last.pending, Pending::Finished);
    assert_eq!(actions.iter().filter(|a| **a == Action::ReadAll).count(), 1);
    assert_eq!(actions[1], Action::Connect { host: "10.0.0.1".to_string(), port: 22 });
    assert_eq!(actions[5], Action::Exec { command: format!("cat {}", DEFAULT_LOG_FILE) });
    assert_eq!(actions[6], Action::ReadAll);
    assert_eq!(actions[7], Action::WaitClose);
    assert_eq!(actions[8], Action::ExitStatus);
}

#[test]
fn tail_reports_a_failing_command() {
    let first = ProviderType::Hetzner.tail(&settings(), "4711", false);
    let events = vec![
        found_server("10.0.0.1"),
        Event::Done,
        Event::Done,
        Event::Done,
        Event::Done,
        Event::Done,
        Event::Text(String::new()),
        Event::Done,
        Event::Status(1),
    ];
    let (printed, _, last) = play(first, events);
    assert_eq!(printed, vec![String::new(), "1\n".to_string()]);
    assert_eq!(last.action, Action::Finish(Err(JobError::RemoteExit(1))));
    let t = resume_session(Stage::Reporting, plan(Mode::Copy), Event::Status(-2));
    assert_eq!(t.output, Some("-2\n".to_string()));
    assert_eq!(t.action, Action::Finish(Err(JobError::RemoteExit(-2))));
}

#[test]
fn tail_with_follow_prints_each_chunk_as_it_comes() {
    let first = ProviderType::Hetzner.tail(&settings(), "4711", true);
    let mut t = resume(first.pending, found_server("10.0.0.1"));
    for _ in 0..5 {
        t = resume(t.pending, Event::Done);
    }
    assert_eq!(t.action, Action::ReadChunk { capacity: 1024 });
    let arrivals = vec![
        (Event::Chunk(b"first ".to_vec()), Some("first ".to_string())),
        (Event::WouldBlock, None),
        (Event::WouldBlock, None),
        (Event::Chunk(b"second\n".to_vec()), Some("second\n".to_string())),
        (Event::Chunk(vec![0xff, b'a']), Some("\u{fffd}a".to_string())),
    ];
    for round in 0..200 {
        for (event, output) in arrivals.clone() {
            t = resume(t.pending, event);
            assert_eq!(t.output, output, "in round {}", round);
            assert_eq!(t.action, Action::ReadChunk { capacity: 1024 });
            assert!(matches!(t.pending, Pending::Session { stage: Stage::Streaming, .. }));
        }
    }
}

#[test]
fn tail_with_follow_ends_when_the_remote_side_closes() {
    let t = resume_session(Stage::Streaming, plan(Mode::Follow), Event::Chunk(vec![]));
    assert_eq!(t.output, None);
    assert_eq!(t.action, Action::WaitClose);
    let t = resume(t.pending, Event::Done);
    assert_eq!(t, finished(Ok(Outcome::Completed)));
}

#[test]
fn tail_with_follow_aborts_on_an_io_error_after_partial_output() {
    let t = resume_session(Stage::Streaming, plan(Mode::Follow), Event::Chunk(b"partial".to_vec()));
    assert_eq!(t.output, Some("partial".to_string()));
    let t = resume(t.pending, Event::Failed("connection reset".to_string()));
    assert_eq!(
        t,
        finished(Err(JobError::RemoteExecution {
            phase: Phase::Streaming,
            message: "connection reset".to_string(),
        }))
    );
}

#[test]
fn tail_of_an_unknown_job_is_not_found() {
    let first = ProviderType::Hetzner.tail(&settings(), "4711", false);
    let t = resume(first.pending, Event::Cloud(CloudReply::Server(None)));
    assert_eq!(t, finished(Err(JobError::NotFound)));
    assert_eq!(ProviderType::Hetzner.tail(&settings(), "no-number", true), finished(Err(JobError::NotFound)));
    let first = ProviderType::AWS.scp(&settings(), "i-1", "a", "b");
    let t = resume(first.pending, Event::Cloud(CloudReply::Described(vec![])));
    assert_eq!(t, finished(Err(JobError::NotFound)));
    let first = ProviderType::AWS.tail(&settings(), "i-1", false);
    let t = resume(first.pending, Event::Cloud(CloudReply::Rejected("denied".to_string())));
    assert_eq!(t, finished(Err(JobError::Provider("denied".to_string()))));
}

#[test]
fn scp_streams_the_copy_and_reports_its_status() {
    let first = ProviderFactory::new("aws").scp(&settings(), "i-0abc", "/root/corpus", "./corpus");
    assert_eq!(
        first.action,
        Action::Ask(CloudRequest::DescribeInstances {
            region: "fsn1".to_string(),
            wanted: Some("i-0abc".to_string()),
        })
    );
    let found = Event::Cloud(CloudReply::Described(vec![Reservation {
        instances: vec![InstanceRecord {
            instance_id: Some("i-0abc".to_string()),
            public_ip: Some("7.7.7.7".to_string()),
            tags: vec![],
        }],
    }]));
    let events = vec![
        found,
        Event::Done,
        Event::Done,
        Event::Done,
        Event::Done,
        Event::Done,
        Event::Chunk(b"corpus/a 100%\n".to_vec()),
        Event::WouldBlock,
        Event::Chunk(b"corpus/b 100%\n".to_vec()),
        Event::Chunk(vec![]),
        Event::Done,
        Event::Status(0),
    ];
    let (printed, actions, last) = play(first, events);
    assert_eq!(
        printed,
        vec!["corpus/a 100%\n".to_string(), "corpus/b 100%\n".to_string(), "0\n".to_string()]
    );
    assert_eq!(last.action, Action::Finish(Ok(Outcome::Completed)));
    assert_eq!(actions[1], Action::Connect { host: "7.7.7.7".to_string(), port: 22 });
    assert_eq!(
        actions[3],
        Action::Authenticate { user: "root".to_string(), key_path: "/keys/id".to_string() }
    );
    assert_eq!(
        actions[5],
        Action::Exec { command: "scp -r root@7.7.7.7:/root/corpus ./corpus".to_string() }
    );
    assert_eq!(actions[10], Action::WaitClose);
    assert_eq!(actions[11], Action::ExitStatus);
}

#[test]
fn bootstrap_pushes_the_script_and_waits_for_the_close() {
    let first = install_over_ssh("10.0.0.9", "/keys/id");
    assert_eq!(first, ProviderFactory.install_dependencies("10.0.0.9", "/keys/id"));
    let events = vec![Event::Done; 8];
    let (printed, actions, last) = play(first, events);
    assert!(printed.is_empty());
    assert_eq!(
        actions,
        vec![
            Action::Connect { host: "10.0.0.9".to_string(), port: 22 },
            Action::Handshake,
            Action::Authenticate { user: "root".to_string(), key_path: "/keys/id".to_string() },
            Action::OpenChannel,
            Action::Exec { command: "bash -s".to_string() },
            Action::Write { data: INSTALL_SCRIPT.to_string() },
            Action::SendEof,
            Action::WaitClose,
        ]
    );
    assert_eq!(last, finished(Ok(Outcome::Completed)));
}

#[test]
fn bootstrap_failure_ends_the_bootstrap_only() {
    let first = install_over_ssh("10.0.0.9", "/keys/id");
    let t = resume(first.pending, Event::Done);
    let t = resume(t.pending, Event::Done);
    let t = resume(t.pending, Event::Failed("publickey denied".to_string()));
    assert_eq!(
        t,
        finished(Err(JobError::Transport {
            phase: Phase::Authenticating,
            message: "publickey denied".to_string(),
        }))
    );
}
