//! The steps of every operation after its first.
use vstd::prelude::*;
use vstd::string::StringExecFns;

use crate::jobs::{jobs_view, Job, JobView};
use crate::providers::protocol::{
    Action, ActionView, CloudReply, CloudReplyView, CloudRequest, CloudRequestView,
    Event, EventView, JobError, JobErrorView, Outcome, OutcomeView, Pending, PendingView,
    Transition, TransitionView,
};
use crate::providers::records::{
    all_instances, copy_opt, copy_or_empty, first_instance, instances_view, job_of_instance,
    job_of_server, reservations_view, servers_view, text_or_empty, InstanceRecord, InstanceView,
    Reservation, ReservationView, ServerRecord, ServerRecordView,
};
use crate::providers::remote::{
    end_with, finish, make_plan, open_session, plan_for, resume_session, session_next,
    session_start,
};

verus! {

/// How long a launched instance is waited for, in seconds.
pub const READINESS_BUDGET_SECS: u64 = 120;

/// The error that an event is which is not the awaited answer: the
/// provider's refusal with its message, or an answer to something else.
pub open spec fn rejection(event: EventView) -> JobErrorView {
    match event {
        EventView::Cloud(CloudReplyView::Rejected(m)) => JobErrorView::Provider(m),
        EventView::Failed(m) => JobErrorView::Provider(m),
        _ => JobErrorView::Provider("unexpected reply"@),
    }
}

/// The job that a look-up found, where the event answers a look-up: the
/// server, or the first instance of the first reservation.
pub open spec fn found_job(event: EventView) -> Option<Option<JobView>> {
    match event {
        EventView::Cloud(CloudReplyView::Server(Some(s))) => Some(Some(job_of_server(s))),
        EventView::Cloud(CloudReplyView::Server(None)) => Some(None),
        EventView::Cloud(CloudReplyView::Described(rs)) => Some(
            match first_instance(rs) {
                Some(i) => Some(job_of_instance(i)),
                None => None,
            },
        ),
        _ => None,
    }
}

/// The jobs that a listing gave, where the event answers a listing.
pub open spec fn listed_jobs(event: EventView) -> Option<Seq<JobView>> {
    match event {
        EventView::Cloud(CloudReplyView::Servers(v)) => Some(
            v.map_values(|s: ServerRecordView| job_of_server(s)),
        ),
        EventView::Cloud(CloudReplyView::Described(rs)) => Some(
            all_instances(rs).map_values(|i: InstanceView| job_of_instance(i)),
        ),
        _ => None,
    }
}

/// The step that puts `request` to the provider and remembers `pending`.
pub open spec fn ask(pending: PendingView, request: CloudRequestView) -> TransitionView {
    TransitionView { pending, output: None, action: ActionView::Ask(request) }
}

/// The step that hands the bootstrap of a started job to the background.
pub open spec fn detach(job: JobView, key_path: Seq<char>) -> TransitionView {
    TransitionView {
        pending: PendingView::Detaching { job },
        output: None,
        action: ActionView::Detach { host: job.ipv4, key_path },
    }
}

/// The address of the instance that was looked up after its launch: the
/// empty text where none is known yet.
pub open spec fn located_address(reservations: Seq<ReservationView>) -> Seq<char> {
    match first_instance(reservations) {
        Some(i) => text_or_empty(i.public_ip),
        None => Seq::empty(),
    }
}

/// The step that an operation takes on the answer to its last action.
pub open spec fn next(pending: PendingView, event: EventView) -> TransitionView {
    match pending {
        PendingView::Creating { name, key_path } => match event {
            EventView::Cloud(CloudReplyView::Created(s)) => detach(
                JobView { id: job_of_server(s).id, ipv4: job_of_server(s).ipv4, name: Some(name) },
                key_path,
            ),
            _ => finish(Err(rejection(event))),
        },
        PendingView::Launching { name, region, key_path } => match event {
            EventView::Cloud(CloudReplyView::Launched(instances)) => if instances.len() == 0 {
                finish(Err(JobErrorView::Provider("no instance created"@)))
            } else {
                match instances[0].instance_id {
                    None => finish(Err(JobErrorView::Provider("missing instance id"@))),
                    Some(instance_id) => TransitionView {
                        pending: PendingView::Settling { name, region, key_path, instance_id },
                        output: None,
                        action: ActionView::Ask(
                            CloudRequestView::WaitUntilRunning {
                                region,
                                instance_id,
                                budget_secs: READINESS_BUDGET_SECS,
                            },
                        ),
                    },
                }
            },
            _ => finish(Err(rejection(event))),
        },
        PendingView::Settling { name, region, key_path, instance_id } => TransitionView {
            pending: PendingView::Locating { name, key_path, instance_id },
            output: None,
            action: ActionView::Ask(
                CloudRequestView::DescribeInstances { region, wanted: Some(instance_id) },
            ),
        },
        PendingView::Locating { name, key_path, instance_id } => match event {
            EventView::Cloud(CloudReplyView::Described(rs)) => detach(
                JobView { id: instance_id, ipv4: located_address(rs), name: Some(name) },
                key_path,
            ),
            _ => finish(Err(rejection(event))),
        },
        PendingView::Detaching { job } => finish(Ok(OutcomeView::Started(job))),
        PendingView::Fetching => match found_job(event) {
            Some(found) => finish(Ok(OutcomeView::Found(found))),
            None => finish(Err(rejection(event))),
        },
        PendingView::Stopping { id } => match event {
            EventView::Cloud(CloudReplyView::Deleted) => finish(
                Ok(OutcomeView::Stopped(JobView { id, ipv4: Seq::empty(), name: None })),
            ),
            EventView::Cloud(CloudReplyView::Terminated) => finish(
                Ok(OutcomeView::Stopped(JobView { id, ipv4: Seq::empty(), name: None })),
            ),
            _ => finish(Err(rejection(event))),
        },
        PendingView::Listing => match listed_jobs(event) {
            Some(jobs) => finish(Ok(OutcomeView::Listed(jobs))),
            None => finish(Err(rejection(event))),
        },
        PendingView::Resolving { target } => match found_job(event) {
            Some(Some(job)) => session_start(job.ipv4, plan_for(target, job.ipv4)),
            Some(None) => finish(Err(JobErrorView::NotFound)),
            None => finish(Err(rejection(event))),
        },
        PendingView::Session { stage, plan } => session_next(stage, plan, event),
        PendingView::Finished => finish(Err(rejection(event))),
    }
}

/// The step that puts `call` to the provider and remembers `pending`.
pub fn send(pending: Pending, call: CloudRequest) -> (t: Transition)
    ensures
        t@ == ask(pending@, call@),
{
    Transition { pending, output: None, action: Action::Ask(call) }
}

fn reject(event: Event) -> (t: Transition)
    ensures
        t@ == finish(Err(rejection(event@))),
{
    let message = match event {
        Event::Cloud(CloudReply::Rejected(m)) => m,
        Event::Failed(m) => m,
        _ => String::from_str("unexpected reply"),
    };
    end_with(Err(JobError::Provider(message)))
}

fn hand_over(job: Job, key_path: String) -> (t: Transition)
    ensures
        t@ == detach(job@, key_path@),
{
    let host = job.ipv4.clone();
    Transition {
        pending: Pending::Detaching { job },
        output: None,
        action: Action::Detach { host, key_path },
    }
}

/// The jobs that the servers are.
pub fn jobs_of_servers(servers: &Vec<ServerRecord>) -> (jobs: Vec<Job>)
    ensures
        jobs_view(jobs@) == servers_view(servers@).map_values(|s: ServerRecordView| job_of_server(s)),
{
    let mut jobs: Vec<Job> = Vec::new();
    let mut i: usize = 0;
    while i < servers.len()
        invariant
            i <= servers@.len(),
            jobs@.len() == i,
            forall|j: int| 0 <= j < i ==> (#[trigger] jobs@[j])@ == job_of_server(servers@[j]@),
        decreases servers@.len() - i,
    {
        jobs.push(servers[i].to_job());
        i = i + 1;
    }
    assert(jobs_view(jobs@) =~= servers_view(servers@).map_values(
        |s: ServerRecordView| job_of_server(s),
    ));
    jobs
}

/// The jobs that the instances of all the reservations are.
pub fn jobs_of_reservations(reservations: &Vec<Reservation>) -> (jobs: Vec<Job>)
    ensures
        jobs_view(jobs@) == all_instances(reservations_view(reservations@)).map_values(
            |i: InstanceView| job_of_instance(i),
        ),
{
    let ghost all = reservations_view(reservations@);
    let mut jobs: Vec<Job> = Vec::new();
    let mut r: usize = 0;
    assert(all.take(0) =~= Seq::<ReservationView>::empty());
    assert(jobs_view(jobs@) =~= all_instances(all.take(0)).map_values(
        |i: InstanceView| job_of_instance(i),
    ));
    while r < reservations.len()
        invariant
            r <= reservations@.len(),
            all == reservations_view(reservations@),
            jobs_view(jobs@) == all_instances(all.take(r as int)).map_values(
                |i: InstanceView| job_of_instance(i),
            ),
        decreases reservations@.len() - r,
    {
        let ghost before = jobs_view(jobs@);
        let ghost group = all[r as int].instances;
        let instances = &reservations[r].instances;
        assert(group == instances_view(instances@));
        let mut k: usize = 0;
        while k < instances.len()
            invariant
                k <= instances@.len(),
                group == instances_view(instances@),
                jobs_view(jobs@) == before + group.take(k as int).map_values(
                    |i: InstanceView| job_of_instance(i),
                ),
            decreases instances@.len() - k,
        {
            let ghost had = jobs_view(jobs@);
            let job = instances[k].to_job();
            jobs.push(job);
            assert(jobs_view(jobs@) =~= had.push(job@));
            assert(jobs_view(jobs@) =~= before + group.take(k + 1).map_values(
                |i: InstanceView| job_of_instance(i),
            ));
            k = k + 1;
        }
        assert(group.take(instances@.len() as int) =~= group);
        assert(all.take(r + 1).drop_last() =~= all.take(r as int));
        assert(all.take(r + 1).last() == all[r as int]);
        assert(jobs_view(jobs@) =~= all_instances(all.take(r + 1)).map_values(
            |i: InstanceView| job_of_instance(i),
        ));
        r = r + 1;
    }
    assert(all.take(reservations@.len() as int) =~= all);
    jobs
}

fn first_of(reservations: &Vec<Reservation>) -> (r: Option<&InstanceRecord>)
    ensures
        match r {
            Some(i) => first_instance(reservations_view(reservations@)) == Some(i@),
            None => first_instance(reservations_view(reservations@)) is None,
        },
{
    if reservations.len() > 0 && reservations[0].instances.len() > 0 {
        Some(&reservations[0].instances[0])
    } else {
        None
    }
}

/// The job that a look-up found, where the reply answers a look-up; the
/// event itself where it does not.
fn look_up(event: Event) -> (r: Result<Option<Job>, Event>)
    ensures
        match r {
            Ok(Some(job)) => found_job(event@) == Some(Some(job@)),
            Ok(None) => found_job(event@) == Some(None::<JobView>),
            Err(e) => found_job(event@) is None && e == event,
        },
{
    match event {
        Event::Cloud(CloudReply::Server(Some(s))) => Ok(Some(s.to_job())),
        Event::Cloud(CloudReply::Server(None)) => Ok(None),
        Event::Cloud(CloudReply::Described(rs)) => match first_of(&rs) {
            Some(i) => Ok(Some(i.to_job())),
            None => Ok(None),
        },
        other => Err(other),
    }
}

/// Takes an operation one step on, from the answer to its last action.
pub fn resume(pending: Pending, event: Event) -> (t: Transition)
    ensures
        t@ == next(pending@, event@),
{
    match pending {
        Pending::Creating { name, key_path } => match event {
            Event::Cloud(CloudReply::Created(s)) => {
                let found = s.to_job();
                hand_over(Job { id: found.id, ipv4: found.ipv4, name: Some(name) }, key_path)
            },
            other => reject(other),
        },
        Pending::Launching { name, region, key_path } => match event {
            Event::Cloud(CloudReply::Launched(instances)) => {
                if instances.len() == 0 {
                    end_with(Err(JobError::Provider(String::from_str("no instance created"))))
                } else {
                    match copy_opt(&instances[0].instance_id) {
                        None => end_with(
                            Err(JobError::Provider(String::from_str("missing instance id"))),
                        ),
                        Some(instance_id) => {
                            let request = CloudRequest::WaitUntilRunning {
                                region: region.clone(),
                                instance_id: instance_id.clone(),
                                budget_secs: READINESS_BUDGET_SECS,
                            };
                            Transition {
                                pending: Pending::Settling { name, region, key_path, instance_id },
                                output: None,
                                action: Action::Ask(request),
                            }
                        },
                    }
                }
            },
            other => reject(other),
        },
        Pending::Settling { name, region, key_path, instance_id } => {
            let request = CloudRequest::DescribeInstances {
                region,
                wanted: Some(instance_id.clone()),
            };
            Transition {
                pending: Pending::Locating { name, key_path, instance_id },
                output: None,
                action: Action::Ask(request),
            }
        },
        Pending::Locating { name, key_path, instance_id } => match event {
            Event::Cloud(CloudReply::Described(rs)) => {
                let ipv4 = match first_of(&rs) {
                    Some(i) => copy_or_empty(&i.public_ip),
                    None => String::new(),
                };
                hand_over(Job { id: instance_id, ipv4, name: Some(name) }, key_path)
            },
            other => reject(other),
        },
        Pending::Detaching { job } => end_with(Ok(Outcome::Started(job))),
        Pending::Fetching => match look_up(event) {
            Ok(found) => end_with(Ok(Outcome::Found(found))),
            Err(other) => reject(other),
        },
        Pending::Stopping { id } => match event {
            Event::Cloud(CloudReply::Deleted) => end_with(
                Ok(Outcome::Stopped(Job { id, ipv4: String::new(), name: None })),
            ),
            Event::Cloud(CloudReply::Terminated) => end_with(
                Ok(Outcome::Stopped(Job { id, ipv4: String::new(), name: None })),
            ),
            other => reject(other),
        },
        Pending::Listing => match event {
            Event::Cloud(CloudReply::Servers(v)) => end_with(
                Ok(Outcome::Listed(jobs_of_servers(&v))),
            ),
            Event::Cloud(CloudReply::Described(rs)) => end_with(
                Ok(Outcome::Listed(jobs_of_reservations(&rs))),
            ),
            other => reject(other),
        },
        Pending::Resolving { target } => match look_up(event) {
            Ok(Some(job)) => {
                let plan = make_plan(target, job.ipv4.as_str());
                open_session(job.ipv4, plan)
            },
            Ok(None) => end_with(Err(JobError::NotFound)),
            Err(other) => reject(other),
        },
        Pending::Session { stage, plan } => resume_session(stage, plan, event),
        Pending::Finished => reject(event),
    }
}

} // verus!
