//! What the providers report of servers and instances, and the jobs that
//! these are.
use vstd::prelude::*;

use crate::jobs::{Job, JobView};
use crate::text::{decimal, signed_text};

verus! {

/// The text of an optional string.
pub open spec fn opt_text(o: Option<String>) -> Option<Seq<char>> {
    match o {
        Some(s) => Some(s@),
        None => None,
    }
}

/// The text that is there, or the empty text.
pub open spec fn text_or_empty(o: Option<Seq<char>>) -> Seq<char> {
    match o {
        Some(s) => s,
        None => Seq::empty(),
    }
}

/// A copy of an optional string.
pub fn copy_opt(o: &Option<String>) -> (r: Option<String>)
    ensures
        opt_text(r) == opt_text(*o),
{
    match o {
        Some(s) => Some(s.clone()),
        None => None,
    }
}

/// A copy of the string that is there, or the empty string.
pub fn copy_or_empty(o: &Option<String>) -> (r: String)
    ensures
        r@ == text_or_empty(opt_text(*o)),
{
    match o {
        Some(s) => s.clone(),
        None => String::new(),
    }
}

/// What a provider of the first style reports of one server.
#[derive(Debug, Clone, PartialEq, Eq)]
pub struct ServerRecord {
    pub id: i64,
    pub name: String,
    pub ipv4: Option<String>,
}

/// What a `ServerRecord` holds, as plain text.
pub struct ServerRecordView {
    pub id: i64,
    pub name: Seq<char>,
    pub ipv4: Option<Seq<char>>,
}

impl View for ServerRecord {
    type V = ServerRecordView;

    open spec fn view(&self) -> ServerRecordView {
        ServerRecordView { id: self.id, name: self.name@, ipv4: opt_text(self.ipv4) }
    }
}

/// One tag of an instance.
#[derive(Debug, Clone, PartialEq, Eq)]
pub struct TagRecord {
    pub key: Option<String>,
    pub value: Option<String>,
}

/// What a `TagRecord` holds, as plain text.
pub struct TagView {
    pub key: Option<Seq<char>>,
    pub value: Option<Seq<char>>,
}

impl View for TagRecord {
    type V = TagView;

    open spec fn view(&self) -> TagView {
        TagView { key: opt_text(self.key), value: opt_text(self.value) }
    }
}

/// What a provider of the second style reports of one instance.
#[derive(Debug, Clone, PartialEq, Eq)]
pub struct InstanceRecord {
    pub instance_id: Option<String>,
    pub public_ip: Option<String>,
    pub tags: Vec<TagRecord>,
}

/// What an `InstanceRecord` holds, as plain text.
pub struct InstanceView {
    pub instance_id: Option<Seq<char>>,
    pub public_ip: Option<Seq<char>>,
    pub tags: Seq<TagView>,
}

impl View for InstanceRecord {
    type V = InstanceView;

    open spec fn view(&self) -> InstanceView {
        InstanceView {
            instance_id: opt_text(self.instance_id),
            public_ip: opt_text(self.public_ip),
            tags: self.tags@.map_values(|t: TagRecord| t@),
        }
    }
}

/// A group of instances that were launched together.
#[derive(Debug, Clone, PartialEq, Eq)]
pub struct Reservation {
    pub instances: Vec<InstanceRecord>,
}

/// What a `Reservation` holds, as plain text.
pub struct ReservationView {
    pub instances: Seq<InstanceView>,
}

impl View for Reservation {
    type V = ReservationView;

    open spec fn view(&self) -> ReservationView {
        ReservationView { instances: instances_view(self.instances@) }
    }
}

/// The views of a list of servers, in order.
pub open spec fn servers_view(servers: Seq<ServerRecord>) -> Seq<ServerRecordView> {
    servers.map_values(|s: ServerRecord| s@)
}

/// The views of a list of instances, in order.
pub open spec fn instances_view(instances: Seq<InstanceRecord>) -> Seq<InstanceView> {
    instances.map_values(|i: InstanceRecord| i@)
}

/// The views of a list of reservations, in order.
pub open spec fn reservations_view(reservations: Seq<Reservation>) -> Seq<ReservationView> {
    reservations.map_values(|r: Reservation| r@)
}

/// The key of the tag that holds an instance's name.
pub const NAME_TAG: &'static str = "Name";

/// The job that a server is: its number in decimal, its address or the empty
/// text while it has none, and its name.
pub open spec fn job_of_server(server: ServerRecordView) -> JobView {
    JobView {
        id: decimal(server.id as int),
        ipv4: text_or_empty(server.ipv4),
        name: Some(server.name),
    }
}

/// The value of the first tag whose key is `Name`; `None` where there is no
/// such tag, or where that tag has no value.
pub open spec fn name_tag(tags: Seq<TagView>) -> Option<Seq<char>>
    decreases tags.len(),
{
    if tags.len() == 0 {
        None
    } else if tags[0].key == Some(NAME_TAG@) {
        tags[0].value
    } else {
        name_tag(tags.drop_first())
    }
}

/// The job that an instance is: its identifier and its address, each empty
/// while it has none, and the name that its tags give.
pub open spec fn job_of_instance(instance: InstanceView) -> JobView {
    JobView {
        id: text_or_empty(instance.instance_id),
        ipv4: text_or_empty(instance.public_ip),
        name: name_tag(instance.tags),
    }
}

/// The first instance of the first reservation, if there is one.
pub open spec fn first_instance(reservations: Seq<ReservationView>) -> Option<InstanceView> {
    if reservations.len() > 0 && reservations[0].instances.len() > 0 {
        Some(reservations[0].instances[0])
    } else {
        None
    }
}

/// The instances of all the reservations, in order.
pub open spec fn all_instances(reservations: Seq<ReservationView>) -> Seq<InstanceView>
    decreases reservations.len(),
{
    if reservations.len() == 0 {
        Seq::empty()
    } else {
        all_instances(reservations.drop_last()) + reservations.last().instances
    }
}

impl ServerRecord {
    /// The job that this server is.
    pub fn to_job(&self) -> (job: Job)
        ensures
            job@ == job_of_server(self@),
    {
        Job { id: signed_text(self.id), ipv4: copy_or_empty(&self.ipv4), name: Some(self.name.clone()) }
    }
}

impl InstanceRecord {
    /// The name that the tags give the instance.
    pub fn name(&self) -> (name: Option<String>)
        ensures
            opt_text(name) == name_tag(self@.tags),
    {
        let wanted = NAME_TAG.to_owned();
        let ghost tags = self@.tags;
        assert(tags.skip(0) =~= tags);
        let mut i: usize = 0;
        while i < self.tags.len()
            invariant
                i <= self.tags@.len(),
                wanted@ == NAME_TAG@,
                tags == self@.tags,
                name_tag(tags) == name_tag(tags.skip(i as int)),
            decreases self.tags@.len() - i,
        {
            let ghost rest = tags.skip(i as int);
            assert(rest[0] == self.tags@[i as int]@);
            assert(rest.drop_first() =~= tags.skip(i + 1));
            let is_name = match &self.tags[i].key {
                Some(k) => *k == wanted,
                None => false,
            };
            if is_name {
                return copy_opt(&self.tags[i].value);
            }
            i = i + 1;
        }
        None
    }

    /// The job that this instance is.
    pub fn to_job(&self) -> (job: Job)
        ensures
            job@ == job_of_instance(self@),
    {
        Job {
            id: copy_or_empty(&self.instance_id),
            ipv4: copy_or_empty(&self.public_ip),
            name: self.name(),
        }
    }
}

} // verus!
