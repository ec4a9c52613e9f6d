//! What holds of whole operations, whatever the provider and the remote
//! host answer.
use vstd::prelude::*;

use crate::config::{complete, config_of, first_missing, ConfigError};
use crate::jobs::JobView;
use crate::providers::lifecycle::{found_job, listed_jobs, located_address, next};
use crate::providers::protocol::{
    ActionView, CloudReplyView, ErrorKind, EventView, JobErrorView, OutcomeView, PendingView,
    Phase, PlanView, Stage, TargetView, TransitionView,
};
use crate::providers::records::{
    all_instances, job_of_instance, job_of_server, name_tag, text_or_empty, InstanceView,
    ReservationView, ServerRecordView,
};
use crate::providers::remote::{
    before_command, finish, phase_of, report, session_start, stage_phase, utf8_lossy,
    READ_CAPACITY,
};
use crate::providers::{
    get_step, list_step, scp_step, start_step, stop_step, tail_step, ProviderType,
};
use crate::text::{decimal, lemma_decimal_round_trip, parse_decimal};

verus! {

/// The step that an operation has reached from `t` once the caller has
/// answered with each of `events` in turn.
pub open spec fn run(t: TransitionView, events: Seq<EventView>) -> TransitionView
    decreases events.len(),
{
    if events.len() == 0 {
        t
    } else {
        next(run(t, events.drop_last()).pending, events.last())
    }
}

/// What one step prints, as a list of at most one text.
pub open spec fn printed_by(t: TransitionView) -> Seq<Seq<char>> {
    match t.output {
        Some(text) => seq![text],
        None => Seq::empty(),
    }
}

/// All that an operation has printed from `t` on, over `events`, in order.
pub open spec fn printed(t: TransitionView, events: Seq<EventView>) -> Seq<Seq<char>>
    decreases events.len(),
{
    if events.len() == 0 {
        printed_by(t)
    } else {
        printed(t, events.drop_last()) + printed_by(run(t, events))
    }
}

/// Whether the step ends the operation with an error.
pub open spec fn failed(t: TransitionView) -> bool {
    t.pending is Finished && t.action matches ActionView::Finish(Err(_))
}

/// One more event takes the operation one step on.
pub proof fn lemma_run_step(t: TransitionView, events: Seq<EventView>, k: int)
    requires
        0 <= k < events.len(),
    ensures
        run(t, events.take(k + 1)) == next(run(t, events.take(k)).pending, events[k]),
        run(t, events.take(0)) == t,
        run(t, events.take(events.len() as int)) == run(t, events),
{
    assert(events.take(k + 1).drop_last() =~= events.take(k));
    assert(events.take(events.len() as int) =~= events);
}

/// The step after one more event.
pub proof fn lemma_run_push(t: TransitionView, events: Seq<EventView>, event: EventView)
    ensures
        run(t, events.push(event)) == next(run(t, events).pending, event),
        printed(t, events.push(event)) == printed(t, events) + printed_by(
            run(t, events.push(event)),
        ),
{
    assert(events.push(event).drop_last() =~= events);
}

/// The step after the first event.
pub proof fn lemma_run_one(t: TransitionView, event: EventView)
    ensures
        run(t, seq![event]) == next(t.pending, event),
        printed(t, seq![event]) == printed_by(t) + printed_by(next(t.pending, event)),
{
    lemma_run_push(t, Seq::empty(), event);
    assert(Seq::<EventView>::empty().push(event) =~= seq![event]);
}

/// An operation that has ended stays ended: every further event is
/// answered by an error.
pub proof fn lemma_ended_stays(t: TransitionView, events: Seq<EventView>, k: int)
    requires
        0 <= k < events.len(),
        run(t, events.take(k)).pending is Finished,
    ensures
        failed(run(t, events)),
    decreases events.len(),
{
    if k == events.len() - 1 {
        assert(events.drop_last() =~= events.take(k));
    } else {
        assert(events.drop_last().take(k) =~= events.take(k));
        lemma_ended_stays(t, events.drop_last(), k);
    }
}

/// Whatever answers the hand-over of the bootstrap, the start ends with the
/// job that the provider gave: the bootstrap has no say in it.
pub proof fn start_ignores_bootstrap(job: JobView, answer: EventView)
    ensures
        next(PendingView::Detaching { job }, answer) == finish(Ok(OutcomeView::Started(job))),
{
}

/// The wait for a launched instance is never the end of a start: whether
/// the instance runs, the time is up or the wait itself failed, the
/// instance is looked up next.
pub proof fn start_outlasts_wait(
    name: Seq<char>,
    region: Seq<char>,
    key_path: Seq<char>,
    instance_id: Seq<char>,
    answer: EventView,
)
    ensures
        next(PendingView::Settling { name, region, key_path, instance_id }, answer).pending
            == (PendingView::Locating { name, key_path, instance_id }),
        next(PendingView::Settling { name, region, key_path, instance_id }, answer).action
            is Ask,
{
}

/// With a complete configuration, a provider of the first style starts a
/// job in one answer: the job has the number that the provider gave the
/// server, written in decimal, and the name that was asked for, whatever
/// answers the hand-over of the bootstrap.
pub proof fn start_on_created(
    settings: Map<Seq<char>, Seq<char>>,
    name: Seq<char>,
    server: ServerRecordView,
    after: EventView,
)
    requires
        complete(config_of(settings)),
    ensures
        run(
            start_step(ProviderType::Hetzner, settings, name),
            seq![EventView::Cloud(CloudReplyView::Created(server)), after],
        ) == finish(
            Ok(
                OutcomeView::Started(
                    JobView {
                        id: decimal(server.id as int),
                        ipv4: text_or_empty(server.ipv4),
                        name: Some(name),
                    },
                ),
            ),
        ),
        parse_decimal(decimal(server.id as int)) == Some(server.id as int),
{
    let t = start_step(ProviderType::Hetzner, settings, name);
    let created = EventView::Cloud(CloudReplyView::Created(server));
    lemma_run_one(t, created);
    lemma_run_push(t, seq![created], after);
    assert(seq![created].push(after) =~= seq![created, after]);
    lemma_decimal_round_trip(server.id as int);
}

/// With a complete configuration, a provider of the second style starts a
/// job over a launch, a wait and a look-up: the job has the identifier of
/// the first launched instance and the name that was asked for, whatever
/// came of the wait and whatever answers the hand-over of the bootstrap.
/// Its address is the one that the look-up found, or empty.
pub proof fn start_after_launch(
    settings: Map<Seq<char>, Seq<char>>,
    name: Seq<char>,
    instances: Seq<InstanceView>,
    waited: EventView,
    reservations: Seq<ReservationView>,
    after: EventView,
)
    requires
        complete(config_of(settings)),
        instances.len() > 0,
        instances[0].instance_id is Some,
    ensures
        run(
            start_step(ProviderType::AWS, settings, name),
            seq![
                EventView::Cloud(CloudReplyView::Launched(instances)),
                waited,
                EventView::Cloud(CloudReplyView::Described(reservations)),
                after,
            ],
        ) == finish(
            Ok(
                OutcomeView::Started(
                    JobView {
                        id: instances[0].instance_id->0,
                        ipv4: located_address(reservations),
                        name: Some(name),
                    },
                ),
            ),
        ),
{
    let t = start_step(ProviderType::AWS, settings, name);
    let launched = EventView::Cloud(CloudReplyView::Launched(instances));
    let described = EventView::Cloud(CloudReplyView::Described(reservations));
    lemma_run_one(t, launched);
    lemma_run_push(t, seq![launched], waited);
    lemma_run_push(t, seq![launched, waited], described);
    lemma_run_push(t, seq![launched, waited, described], after);
    assert(seq![launched].push(waited) =~= seq![launched, waited]);
    assert(seq![launched, waited].push(described) =~= seq![launched, waited, described]);
    assert(seq![launched, waited, described].push(after) =~= seq![
        launched,
        waited,
        described,
        after,
    ]);
}

/// Every start that succeeds gives a job with the name that was asked for
/// and with the identifier that the provider assigned in its first answer:
/// the server's number in decimal, or the first launched instance's
/// identifier.
pub proof fn started_job_is_the_providers(
    kind: ProviderType,
    settings: Map<Seq<char>, Seq<char>>,
    name: Seq<char>,
    events: Seq<EventView>,
    outcome: OutcomeView,
)
    requires
        run(start_step(kind, settings, name), events).action == ActionView::Finish(Ok(outcome)),
    ensures
        outcome matches OutcomeView::Started(job) && job.name == Some(name) && match kind {
            ProviderType::Hetzner => events.len() == 2 && (events[0] matches EventView::Cloud(
                CloudReplyView::Created(server),
            ) && job.id == decimal(server.id as int) && parse_decimal(job.id) == Some(
                server.id as int,
            )),
            ProviderType::AWS => events.len() == 4 && (events[0] matches EventView::Cloud(
                CloudReplyView::Launched(instances),
            ) && instances.len() > 0 && instances[0].instance_id == Some(job.id)),
        },
{
    let t = start_step(kind, settings, name);
    if events.len() == 0 {
        assert(run(t, events) == t);
    } else {
        lemma_run_step(t, events, 0);
        let t1 = run(t, events.take(1));
        if t.pending is Finished {
            lemma_ended_stays(t, events, 0);
        } else if events.len() == 1 {
        } else {
            lemma_run_step(t, events, 1);
            let t2 = run(t, events.take(2));
            if t1.pending is Finished {
                lemma_ended_stays(t, events, 1);
            } else if events.len() == 2 {
                if kind is Hetzner {
                    let server = events[0]->Cloud_0->Created_0;
                    lemma_decimal_round_trip(server.id as int);
                }
            } else {
                lemma_run_step(t, events, 2);
                let t3 = run(t, events.take(3));
                if t2.pending is Finished {
                    lemma_ended_stays(t, events, 2);
                } else if events.len() == 3 {
                } else {
                    lemma_run_step(t, events, 3);
                    let t4 = run(t, events.take(4));
                    if t3.pending is Finished {
                        lemma_ended_stays(t, events, 3);
                    } else if events.len() == 4 {
                    } else {
                        assert(t4.pending is Finished);
                        lemma_ended_stays(t, events, 4);
                    }
                }
            }
        }
    }
}

/// A look-up, a stop and a listing each end on the provider's first answer:
/// where one of them succeeds, exactly one event was taken, and the outcome
/// is what that answer holds. A stop gives back the identifier that it was
/// asked to stop.
pub proof fn single_answer_operations(
    kind: ProviderType,
    settings: Map<Seq<char>, Seq<char>>,
    job_id: Seq<char>,
    events: Seq<EventView>,
    outcome: OutcomeView,
)
    requires
        events.len() > 0,
    ensures
        run(get_step(kind, settings, job_id), events).action == ActionView::Finish(Ok(outcome))
            ==> events.len() == 1 && found_job(events[0]) is Some && outcome
            == OutcomeView::Found(found_job(events[0])->0),
        run(stop_step(kind, settings, job_id), events).action == ActionView::Finish(Ok(outcome))
            ==> events.len() == 1 && (events[0] == EventView::Cloud(CloudReplyView::Deleted)
            || events[0] == EventView::Cloud(CloudReplyView::Terminated)) && outcome
            == OutcomeView::Stopped(JobView { id: job_id, ipv4: Seq::empty(), name: None }),
        run(list_step(kind, settings), events).action == ActionView::Finish(Ok(outcome))
            ==> events.len() == 1 && listed_jobs(events[0]) is Some && outcome
            == OutcomeView::Listed(listed_jobs(events[0])->0),
{
    lemma_single_answer(get_step(kind, settings, job_id), events);
    lemma_single_answer(stop_step(kind, settings, job_id), events);
    lemma_single_answer(list_step(kind, settings), events);
}

/// An operation that is over after one event answers every further event
/// with an error.
proof fn lemma_single_answer(t: TransitionView, events: Seq<EventView>)
    requires
        events.len() > 0,
        t.pending is Finished || next(t.pending, events[0]).pending is Finished,
    ensures
        run(t, events.take(1)) == next(t.pending, events[0]),
        events.len() > 1 ==> failed(run(t, events)),
        events.len() == 1 ==> run(t, events) == next(t.pending, events[0]),
        t.pending is Finished ==> failed(run(t, events)),
{
    lemma_run_step(t, events, 0);
    if t.pending is Finished {
        lemma_ended_stays(t, events, 0);
    } else if events.len() > 1 {
        lemma_ended_stays(t, events, 1);
    }
}

/// Nothing is tried twice: a failed action ends the operation with an error,
/// but for the wait for a launched instance and the hand-over of the
/// bootstrap, whose failures are passed over.
pub proof fn failure_ends_operation(pending: PendingView, message: Seq<char>)
    requires
        !(pending is Settling),
        !(pending is Detaching),
    ensures
        failed(next(pending, EventView::Failed(message))),
{
}

/// A provider's refusal ends any request to it with an error of the
/// provider's kind that carries the provider's message.
pub proof fn refusal_is_provider_error(pending: PendingView, message: Seq<char>)
    requires
        pending is Creating || pending is Launching || pending is Locating || pending is Fetching
            || pending is Stopping || pending is Listing || pending is Resolving,
    ensures
        next(pending, EventView::Cloud(CloudReplyView::Rejected(message))) == finish(
            Err(JobErrorView::Provider(message)),
        ),
        JobErrorView::Provider(message).kind() == ErrorKind::Provider,
{
}

/// A job that the provider does not know is absent, not an error, whichever
/// way the provider says so.
pub proof fn unknown_job_is_absent(
    kind: ProviderType,
    settings: Map<Seq<char>, Seq<char>>,
    job_id: Seq<char>,
    answer: EventView,
)
    requires
        complete(config_of(settings)),
        found_job(answer) == Some(None::<JobView>),
    ensures
        get_step(kind, settings, job_id).action is Finish || get_step(
            kind,
            settings,
            job_id,
        ).pending is Fetching,
        get_step(kind, settings, job_id).action is Finish ==> get_step(kind, settings, job_id)
            == finish(Ok(OutcomeView::Found(None))),
        get_step(kind, settings, job_id).pending is Fetching ==> run(
            get_step(kind, settings, job_id),
            seq![answer],
        ) == finish(Ok(OutcomeView::Found(None))),
{
    lemma_run_one(get_step(kind, settings, job_id), answer);
}

/// A listing gives one job for each instance that the provider reports, in
/// the provider's order, each with the name that the provider holds for it.
pub proof fn listing_is_complete(
    kind: ProviderType,
    settings: Map<Seq<char>, Seq<char>>,
    answer: EventView,
)
    requires
        complete(config_of(settings)),
        answer matches EventView::Cloud(r) && (r is Servers || r is Described),
    ensures
        run(list_step(kind, settings), seq![answer]).action matches ActionView::Finish(
            Ok(OutcomeView::Listed(jobs)),
        ) && match answer {
            EventView::Cloud(CloudReplyView::Servers(servers)) => {
                &&& jobs.len() == servers.len()
                &&& forall|i: int|
                    0 <= i < servers.len() ==> #[trigger] jobs[i] == job_of_server(servers[i])
                &&& forall|i: int|
                    0 <= i < servers.len() ==> (#[trigger] jobs[i]).name == Some(servers[i].name)
            },
            EventView::Cloud(CloudReplyView::Described(reservations)) => {
                &&& jobs.len() == instance_count(reservations)
                &&& forall|i: int|
                    0 <= i < jobs.len() ==> #[trigger] jobs[i] == job_of_instance(
                        all_instances(reservations)[i],
                    )
                &&& forall|i: int|
                    0 <= i < jobs.len() ==> (#[trigger] jobs[i]).name == name_tag(
                        all_instances(reservations)[i].tags,
                    )
            },
            _ => true,
        },
{
    lemma_run_one(list_step(kind, settings), answer);
    if let EventView::Cloud(CloudReplyView::Described(reservations)) = answer {
        lemma_instance_count(reservations);
    }
}

/// The events of a tail that prints the log once: the job is found, the
/// session is set up, the command runs, its output is read to the end, the
/// channel closes and the command's status is read.
pub open spec fn dump_events(found: EventView, content: Seq<char>, code: i32) -> Seq<EventView> {
    seq![
        found,
        EventView::Done,
        EventView::Done,
        EventView::Done,
        EventView::Done,
        EventView::Done,
        EventView::Text(content),
        EventView::Done,
        EventView::Status(code),
    ]
}

/// Whether the step ends the operation.
pub open spec fn is_end(t: TransitionView) -> bool {
    t.action is Finish
}

/// Whether the step asks to read the command's whole output.
pub open spec fn reads_all(t: TransitionView) -> bool {
    t.action is ReadAll
}

/// The step that a tail which prints the log once has reached after the
/// first `k` of its events.
pub open spec fn dump_step(
    kind: ProviderType,
    settings: Map<Seq<char>, Seq<char>>,
    job_id: Seq<char>,
    events: Seq<EventView>,
    k: int,
) -> TransitionView {
    run(tail_step(kind, settings, job_id, false), events.take(k))
}

/// A tail that does not follow prints the log exactly once and ends: it
/// asks to read at one step only, prints what it read, prints the command's
/// status on a line of its own, and is over; it does not end before.
pub proof fn dump_prints_once(
    kind: ProviderType,
    settings: Map<Seq<char>, Seq<char>>,
    job_id: Seq<char>,
    found: EventView,
    content: Seq<char>,
    code: i32,
)
    requires
        complete(config_of(settings)),
        tail_step(kind, settings, job_id, false).pending is Resolving,
        found_job(found) matches Some(Some(_)),
    ensures
        printed(tail_step(kind, settings, job_id, false), dump_events(found, content, code))
            == seq![content, decimal(code as int) + "\n"@],
        dump_step(kind, settings, job_id, dump_events(found, content, code), 9) == report(code),
        forall|k: int|
            0 <= k < 9 ==> !is_end(
                #[trigger] dump_step(kind, settings, job_id, dump_events(found, content, code), k),
            ),
        forall|k: int|
            0 <= k <= 9 && k != 6 ==> !reads_all(
                #[trigger] dump_step(kind, settings, job_id, dump_events(found, content, code), k),
            ),
{
    let t = tail_step(kind, settings, job_id, false);
    let events = dump_events(found, content, code);
    lemma_dump_run(t, events, 0);
    lemma_dump_run(t, events, 1);
    lemma_dump_run(t, events, 2);
    lemma_dump_run(t, events, 3);
    lemma_dump_run(t, events, 4);
    lemma_dump_run(t, events, 5);
    lemma_dump_run(t, events, 6);
    lemma_dump_run(t, events, 7);
    lemma_dump_run(t, events, 8);
    assert(events.take(9) =~= events);
    assert(printed(t, events) =~= seq![content, decimal(code as int) + "\n"@]);
    assert forall|k: int| 0 <= k < 9 implies !is_end(
        #[trigger] dump_step(kind, settings, job_id, events, k),
    ) by {
        assert(k == 0 || k == 1 || k == 2 || k == 3 || k == 4 || k == 5 || k == 6 || k == 7 || k
            == 8);
    }
    assert forall|k: int| 0 <= k <= 9 && k != 6 implies !reads_all(
        #[trigger] dump_step(kind, settings, job_id, events, k),
    ) by {
        assert(k == 0 || k == 1 || k == 2 || k == 3 || k == 4 || k == 5 || k == 7 || k == 8 || k
            == 9);
    }
}

proof fn lemma_dump_run(t: TransitionView, events: Seq<EventView>, k: int)
    requires
        0 <= k < events.len(),
    ensures
        run(t, events.take(k + 1)) == next(run(t, events.take(k)).pending, events[k]),
        printed(t, events.take(k + 1)) == printed(t, events.take(k)) + printed_by(
            run(t, events.take(k + 1)),
        ),
        run(t, events.take(0)) == t,
        printed(t, events.take(0)) == printed_by(t),
{
    assert(events.take(k + 1).drop_last() =~= events.take(k));
}

/// Whether the event is what a read gives while the command runs on: some
/// bytes, or the word that none have come yet.
pub open spec fn keeps_open(event: EventView) -> bool {
    event is WouldBlock || (event matches EventView::Chunk(bytes) && bytes.len() > 0)
}

/// The texts of the chunks among the events, in order.
pub open spec fn chunk_texts(events: Seq<EventView>) -> Seq<Seq<char>>
    decreases events.len(),
{
    if events.len() == 0 {
        Seq::empty()
    } else {
        chunk_texts(events.drop_last()) + match events.last() {
            EventView::Chunk(bytes) => seq![utf8_lossy(bytes)],
            _ => Seq::empty(),
        }
    }
}

/// The step of a session that waits for the next chunk.
pub open spec fn streaming(plan: PlanView) -> TransitionView {
    TransitionView {
        pending: PendingView::Session { stage: Stage::Streaming, plan },
        output: None,
        action: ActionView::ReadChunk { capacity: READ_CAPACITY },
    }
}

/// While the remote side keeps the channel open, a streaming session never
/// ends: after every chunk and every empty-handed read it reads again. Each
/// chunk is printed in the very step in which it arrived, and all that has
/// been printed is the chunks' texts in their order.
pub proof fn stream_prints_as_it_comes(plan: PlanView, events: Seq<EventView>)
    requires
        forall|i: int| 0 <= i < events.len() ==> keeps_open(#[trigger] events[i]),
    ensures
        run(streaming(plan), events).pending == (PendingView::Session {
            stage: Stage::Streaming,
            plan,
        }),
        run(streaming(plan), events).action == (ActionView::ReadChunk { capacity: READ_CAPACITY }),
        events.len() > 0 ==> run(streaming(plan), events).output == match events.last() {
            EventView::Chunk(bytes) => Some(utf8_lossy(bytes)),
            _ => None,
        },
        printed(streaming(plan), events) == chunk_texts(events),
    decreases events.len(),
{
    if events.len() > 0 {
        let before = events.drop_last();
        assert forall|i: int| 0 <= i < before.len() implies keeps_open(#[trigger] before[i]) by {
            assert(before[i] == events[i]);
        }
        stream_prints_as_it_comes(plan, before);
        assert(keeps_open(events[events.len() - 1]));
    }
}

/// Only a read that gives no bytes, or a failure, takes a streaming session
/// out of its loop; the empty read leads to the close of the channel.
pub proof fn stream_ends_on_empty_read(plan: PlanView, event: EventView)
    ensures
        next(PendingView::Session { stage: Stage::Streaming, plan }, event).pending
            == (PendingView::Session { stage: Stage::Streaming, plan }) <==> keeps_open(event),
        event == EventView::Chunk(Seq::empty()) ==> next(
            PendingView::Session { stage: Stage::Streaming, plan },
            event,
        ).action is WaitClose,
{
}

/// A failure of a session's step is a transport error where it comes before
/// any command runs, and an error of the remote execution from then on; it
/// names the phase in which the session stood and carries the message.
pub proof fn session_failure_kinds(stage: Stage, plan: PlanView, message: Seq<char>)
    ensures
        next(PendingView::Session { stage, plan }, EventView::Failed(message)) == finish(
            Err(
                if before_command(stage) {
                    JobErrorView::Transport { phase: stage_phase(stage), message }
                } else {
                    JobErrorView::RemoteExecution { phase: stage_phase(stage), message }
                },
            ),
        ),
        before_command(stage) <==> stage_phase(stage) is Connecting || stage_phase(stage)
            is Handshaking || stage_phase(stage) is Authenticating || stage_phase(stage)
            is ChannelOpen,
{
}

/// Whether the session has sent its command, or is over.
pub open spec fn past_opening(pending: PendingView) -> bool {
    match pending {
        PendingView::Session { stage, .. } => !before_command(stage),
        PendingView::Finished => true,
        _ => false,
    }
}

/// A session that has sent its command sends no second one.
pub proof fn lemma_one_command(t: TransitionView, events: Seq<EventView>, k: int)
    requires
        0 <= k < events.len(),
        past_opening(run(t, events.take(k)).pending),
    ensures
        past_opening(run(t, events).pending),
        !(run(t, events).action is Exec),
    decreases events.len(),
{
    if k == events.len() - 1 {
        assert(events.drop_last() =~= events.take(k));
    } else {
        assert(events.drop_last().take(k) =~= events.take(k));
        lemma_one_command(t, events.drop_last(), k);
    }
}

/// A session sends its command to the host once, and only after the
/// connection, the handshake, the authentication and the opening of the
/// channel have each succeeded, in this order: a failure of any of them ends
/// the session before any command runs.
pub proof fn command_runs_after_authentication(
    host: Seq<char>,
    plan: PlanView,
    events: Seq<EventView>,
)
    requires
        run(session_start(host, plan), events).action is Exec,
    ensures
        events == seq![EventView::Done, EventView::Done, EventView::Done, EventView::Done],
        run(session_start(host, plan), events).action == (ActionView::Exec {
            command: plan.command,
        }),
{
    let t = session_start(host, plan);
    if events.len() == 0 {
        assert(run(t, events) == t);
    } else {
        lemma_run_step(t, events, 0);
        if !(events[0] is Done) {
            lemma_ended_stays_from(t, events, 1);
        } else if events.len() == 1 {
        } else {
            lemma_run_step(t, events, 1);
            if !(events[1] is Done) {
                lemma_ended_stays_from(t, events, 2);
            } else if events.len() == 2 {
            } else {
                lemma_run_step(t, events, 2);
                if !(events[2] is Done) {
                    lemma_ended_stays_from(t, events, 3);
                } else if events.len() == 3 {
                } else {
                    lemma_run_step(t, events, 3);
                    if !(events[3] is Done) {
                        lemma_ended_stays_from(t, events, 4);
                    } else if events.len() == 4 {
                        assert(events =~= seq![
                            EventView::Done,
                            EventView::Done,
                            EventView::Done,
                            EventView::Done,
                        ]);
                    } else {
                        lemma_one_command(t, events, 4);
                    }
                }
            }
        }
    }
}

/// An operation that has ended after `k` events has failed after all of
/// them, where they are more, and is over where they are just as many.
proof fn lemma_ended_stays_from(t: TransitionView, events: Seq<EventView>, k: int)
    requires
        0 < k <= events.len(),
        run(t, events.take(k)).pending is Finished,
        run(t, events.take(k)).action is Finish,
    ensures
        run(t, events).action is Finish,
{
    if k < events.len() {
        lemma_ended_stays(t, events, k);
    } else {
        assert(events.take(k) =~= events);
    }
}

/// A remote command on the host of a job that the provider does not know
/// fails, and nothing is connected to.
pub proof fn remote_command_needs_job(target: TargetView, answer: EventView)
    requires
        found_job(answer) == Some(None::<JobView>),
    ensures
        next(PendingView::Resolving { target }, answer) == finish(Err(JobErrorView::NotFound)),
{
}

/// The place of a phase in the order in which a remote call goes through them.
pub open spec fn phase_rank(phase: Phase) -> nat {
    match phase {
        Phase::Connecting => 0,
        Phase::Handshaking => 1,
        Phase::Authenticating => 2,
        Phase::ChannelOpen => 3,
        Phase::Executing => 4,
        Phase::Streaming => 5,
        Phase::Closed => 6,
    }
}

/// A remote call goes through its phases in their order: each step leaves
/// it in its phase, takes it to the next one, or closes it; and as long as
/// the session lasts it keeps to its plan.
pub proof fn session_keeps_order(stage: Stage, plan: PlanView, event: EventView)
    ensures
        phase_of(next(PendingView::Session { stage, plan }, event).pending) matches Some(after)
            && (after is Closed || phase_rank(stage_phase(stage)) <= phase_rank(after)
            <= phase_rank(stage_phase(stage)) + 1),
        next(PendingView::Session { stage, plan }, event).pending matches PendingView::Session {
            plan: kept,
            ..
        } ==> kept == plan,
{
}

/// The bootstrap is handed over only on the provider's answer that gives
/// the new job, never before it, and for the host of that job.
pub proof fn bootstrap_follows_provider(pending: PendingView, event: EventView)
    requires
        next(pending, event).action is Detach,
    ensures
        (pending is Creating && event matches EventView::Cloud(CloudReplyView::Created(_)))
            || (pending is Locating && event matches EventView::Cloud(
            CloudReplyView::Described(_),
        )),
        next(pending, event).pending matches PendingView::Detaching { job } && next(
            pending,
            event,
        ).action matches ActionView::Detach { host, .. } && host == job.ipv4,
{
}

/// Without a complete configuration nothing is asked of any provider and
/// nothing is connected to: every operation ends at once, with the first
/// missing field.
pub proof fn incomplete_settings_end_at_once(
    kind: ProviderType,
    settings: Map<Seq<char>, Seq<char>>,
    text: Seq<char>,
    other: Seq<char>,
    follow: bool,
)
    requires
        first_missing(config_of(settings)) is Some,
    ensures
        start_step(kind, settings, text) == missing_setting(settings),
        get_step(kind, settings, text) == missing_setting(settings),
        stop_step(kind, settings, text) == missing_setting(settings),
        list_step(kind, settings) == missing_setting(settings),
        tail_step(kind, settings, text, follow) == missing_setting(settings),
        scp_step(kind, settings, text, other, text) == missing_setting(settings),
        missing_setting(settings).action matches ActionView::Finish(Err(e)) && e.kind()
            == ErrorKind::Config,
{
}

/// The step that ends a command for want of a setting.
pub open spec fn missing_setting(settings: Map<Seq<char>, Seq<char>>) -> TransitionView {
    finish(Err(JobErrorView::Config(ConfigError::Missing(first_missing(config_of(settings))->0))))
}

/// How many instances the reservations hold together.
pub open spec fn instance_count(reservations: Seq<ReservationView>) -> nat
    decreases reservations.len(),
{
    if reservations.len() == 0 {
        0
    } else {
        instance_count(reservations.drop_last()) + reservations.last().instances.len()
    }
}

/// The instances of all the reservations are as many as the reservations
/// hold together.
pub proof fn lemma_instance_count(reservations: Seq<ReservationView>)
    ensures
        all_instances(reservations).len() == instance_count(reservations),
    decreases reservations.len(),
{
    if reservations.len() > 0 {
        lemma_instance_count(reservations.drop_last());
    }
}

} // verus!
