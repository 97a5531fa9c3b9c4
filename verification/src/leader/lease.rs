//! The Lease object that the replicas share as their lock: what it holds, what each
//! kind of write makes of it, and who may claim it.
use crate::duration::{Duration, NANOS_PER_SEC};
use crate::timestamp::{
    chrono_lease_expired, timestamp_to_chrono, DateTime, Moment, Stamp, Timestamp,
};
use k8s_openapi::apimachinery::pkg::apis::meta::v1::ObjectMeta;
use vstd::prelude::*;

verus! {

/// The metadata that Kubernetes keeps of an object. It is only carried along.
#[verifier::external_type_specification]
#[verifier::external_body]
pub struct ExObjectMeta(k8s_openapi::apimachinery::pkg::apis::meta::v1::ObjectMeta);

/// What a lease says of its holder.
#[derive(Debug)]
pub struct LeaseSpec {
    /// Who holds the lease. No identity, or an empty one, means that nobody does.
    pub holder_identity: Option<String>,
    /// For how many seconds after `renew_time` the holder is safe from being replaced.
    pub lease_duration_seconds: Option<i32>,
    /// When the holder got hold of the lease.
    pub acquire_time: Option<Timestamp>,
    /// When the holder last renewed the lease.
    pub renew_time: Option<Timestamp>,
    /// How often the lease has passed from one holder to another.
    pub lease_transitions: Option<i32>,
    /// A holder that would suit the lease better.
    pub preferred_holder: Option<String>,
    /// How the holder of the lease is picked.
    pub strategy: Option<String>,
}

/// A lease as the API server stores it.
#[derive(Debug)]
pub struct Lease {
    /// The object's metadata, its resource version among it: the API server refuses a
    /// write that carries another version than the stored one.
    pub metadata: ObjectMeta,
    /// What the lease says of its holder.
    pub spec: Option<LeaseSpec>,
}

/// The view of a [`LeaseSpec`].
#[verifier::ext_equal]
pub ghost struct LeaseRecord {
    pub holder_identity: Option<Seq<char>>,
    pub lease_duration_seconds: Option<i32>,
    pub acquire_time: Option<Stamp>,
    pub renew_time: Option<Stamp>,
    pub lease_transitions: Option<i32>,
    pub preferred_holder: Option<Seq<char>>,
    pub strategy: Option<Seq<char>>,
}

/// The view of a [`Lease`].
#[verifier::ext_equal]
pub ghost struct LeaseView {
    pub metadata: ObjectMeta,
    pub spec: Option<LeaseRecord>,
}

/// The view of a text that may be missing.
pub open spec fn text(held: Option<String>) -> Option<Seq<char>> {
    match held {
        Some(found) => Some(found@),
        None => None,
    }
}

/// The view of a time that may be missing.
pub open spec fn time(held: Option<Timestamp>) -> Option<Stamp> {
    match held {
        Some(found) => Some(found@),
        None => None,
    }
}

impl View for LeaseSpec {
    type V = LeaseRecord;

    open spec fn view(&self) -> LeaseRecord {
        LeaseRecord {
            holder_identity: text(self.holder_identity),
            lease_duration_seconds: self.lease_duration_seconds,
            acquire_time: time(self.acquire_time),
            renew_time: time(self.renew_time),
            lease_transitions: self.lease_transitions,
            preferred_holder: text(self.preferred_holder),
            strategy: text(self.strategy),
        }
    }
}

impl View for Lease {
    type V = LeaseView;

    open spec fn view(&self) -> LeaseView {
        LeaseView {
            metadata: self.metadata,
            spec: match self.spec {
                Some(spec) => Some(spec@),
                None => None,
            },
        }
    }
}

/// What a replica finds a lease to be, from its own point of view.
#[derive(Clone, Copy, Debug, PartialEq, Eq, Structural)]
pub enum Claim {
    /// The replica holds the lease itself.
    Own,
    /// Nobody holds the lease, or its holder let it expire: it is up for grabs.
    Free,
    /// Another replica holds the lease, which has not expired.
    Held,
}

impl LeaseRecord {
    /// A record that says nothing.
    pub open spec fn empty() -> LeaseRecord {
        LeaseRecord {
            holder_identity: None,
            lease_duration_seconds: None,
            acquire_time: None,
            renew_time: None,
            lease_transitions: None,
            preferred_holder: None,
            strategy: None,
        }
    }

    /// The record of a lease that `identity` creates at `at`.
    pub open spec fn created(identity: Seq<char>, lease_secs: i32, at: Stamp) -> LeaseRecord {
        LeaseRecord {
            holder_identity: Some(identity),
            lease_duration_seconds: Some(lease_secs),
            acquire_time: Some(at),
            renew_time: Some(at),
            lease_transitions: Some(0),
            preferred_holder: None,
            strategy: None,
        }
    }

    /// The record after `identity`, who holds the lease, renews it at `at`.
    pub open spec fn renewed(self, identity: Seq<char>, lease_secs: i32, at: Stamp) -> LeaseRecord {
        LeaseRecord {
            holder_identity: Some(identity),
            lease_duration_seconds: Some(lease_secs),
            renew_time: Some(at),
            ..self
        }
    }

    /// The record after `identity` takes the lease over at `at`.
    pub open spec fn taken_over(self, identity: Seq<char>, lease_secs: i32, at: Stamp) -> LeaseRecord {
        LeaseRecord {
            holder_identity: Some(identity),
            lease_duration_seconds: Some(lease_secs),
            acquire_time: Some(at),
            renew_time: Some(at),
            lease_transitions: Some((self.transitions() + 1) as i32),
            ..self
        }
    }

    /// The record after its holder lets go of the lease.
    pub open spec fn released(self) -> LeaseRecord {
        LeaseRecord { holder_identity: None, ..self }
    }

    /// How often the lease has passed from one holder to another.
    pub open spec fn transitions(self) -> int {
        match self.lease_transitions {
            Some(count) => count as int,
            None => 0,
        }
    }

    /// Whether nobody holds the lease.
    pub open spec fn unowned(self) -> bool {
        match self.holder_identity {
            Some(holder) => holder.len() == 0,
            None => true,
        }
    }

    /// Whether the lease's time is over at `now`. A lease that does not say for how long
    /// it is good is good for `default_secs`; one that does not say when it was renewed,
    /// or that names a time that the clock cannot show, has expired.
    pub open spec fn expired(self, now: Moment, default_secs: i32) -> bool {
        match self.renew_time {
            Some(renewed) => renewed.moment().valid() ==> now.is_after(
                renewed.moment().plus_seconds(
                    match self.lease_duration_seconds {
                        Some(secs) => secs as int,
                        None => default_secs as int,
                    },
                ),
            ),
            None => true,
        }
    }

    /// What `identity` finds the lease to be at `now`.
    pub open spec fn claim(self, identity: Seq<char>, now: Moment, default_secs: i32) -> Claim {
        if self.holder_identity == Some(identity) {
            Claim::Own
        } else if self.unowned() || self.expired(now, default_secs) {
            Claim::Free
        } else {
            Claim::Held
        }
    }
}

impl LeaseView {
    /// What the lease says of its holder; nothing, if it has no record.
    pub open spec fn record(self) -> LeaseRecord {
        match self.spec {
            Some(record) => record,
            None => LeaseRecord::empty(),
        }
    }

    /// The lease with another record, and its metadata as they were.
    pub open spec fn with(self, record: LeaseRecord) -> LeaseView {
        LeaseView { spec: Some(record), ..self }
    }
}

/// `secs` in 32 bits, two's complement: what is left of it when it does not fit.
pub open spec fn wrap_i32(secs: int) -> int {
    if secs % 0x1_0000_0000 < 0x8000_0000 {
        secs % 0x1_0000_0000
    } else {
        secs % 0x1_0000_0000 - 0x1_0000_0000
    }
}

/// The whole seconds of a lease duration, as a lease holds them.
pub open spec fn lease_secs_of(lease_duration: nat) -> i32 {
    wrap_i32((lease_duration / NANOS_PER_SEC as nat) as int) as i32
}

/// The whole seconds of `lease_duration`, as a lease holds them.
pub fn lease_seconds(lease_duration: Duration) -> (secs: i32)
    ensures
        secs == lease_secs_of(lease_duration@),
{
    let secs: u64 = lease_duration.as_secs();
    assert((secs % 0x1_0000_0000 < 0x8000_0000 ==> secs as i32 == secs % 0x1_0000_0000)
        && (secs % 0x1_0000_0000 >= 0x8000_0000 ==> secs as i32 == secs % 0x1_0000_0000
        - 0x1_0000_0000)) by (bit_vector);
    secs as i32
}

impl LeaseSpec {
    /// A record that says nothing.
    pub fn empty() -> (spec: LeaseSpec)
        ensures
            spec@ == LeaseRecord::empty(),
    {
        LeaseSpec {
            holder_identity: None,
            lease_duration_seconds: None,
            acquire_time: None,
            renew_time: None,
            lease_transitions: None,
            preferred_holder: None,
            strategy: None,
        }
    }

    /// The record of a lease that `identity` creates at `at`.
    pub fn created(identity: &str, lease_secs: i32, at: Timestamp) -> (spec: LeaseSpec)
        ensures
            spec@ == LeaseRecord::created(identity@, lease_secs, at@),
    {
        LeaseSpec {
            holder_identity: Some(identity.to_owned()),
            lease_duration_seconds: Some(lease_secs),
            acquire_time: Some(at),
            renew_time: Some(at),
            lease_transitions: Some(0),
            preferred_holder: None,
            strategy: None,
        }
    }

    /// What `identity` finds the lease to be at `now`. A lease that does not say for how
    /// long it is good is good for `default_secs`.
    pub fn claim(&self, identity: &str, now: DateTime, default_secs: i32) -> (claim: Claim)
        ensures
            claim == self@.claim(identity@, now@, default_secs),
    {
        match &self.holder_identity {
            Some(holder) => {
                if *holder == identity.to_owned() {
                    return Claim::Own;
                }
                if holder.as_str().is_empty() {
                    return Claim::Free;
                }
            },
            None => {
                return Claim::Free;
            },
        }
        let expired = match &self.renew_time {
            Some(renewed) => {
                let secs: i32 = match self.lease_duration_seconds {
                    Some(secs) => secs,
                    None => default_secs,
                };
                match timestamp_to_chrono(renewed) {
                    Some(renew_time) => chrono_lease_expired(now, renew_time, secs as i64),
                    None => true,
                }
            },
            None => true,
        };
        if expired {
            Claim::Free
        } else {
            Claim::Held
        }
    }
}

impl Lease {
    /// What `identity` finds the lease to be at `now`. A lease that does not say for how
    /// long it is good is good for `default_secs`.
    pub fn claim(&self, identity: &str, now: DateTime, default_secs: i32) -> (claim: Claim)
        ensures
            claim == self@.record().claim(identity@, now@, default_secs),
    {
        match &self.spec {
            Some(spec) => spec.claim(identity, now, default_secs),
            None => Claim::Free,
        }
    }

    /// Whether `identity` holds the lease.
    pub fn is_held_by(&self, identity: &str) -> (held: bool)
        ensures
            held == (self@.record().holder_identity == Some(identity@)),
    {
        match &self.spec {
            Some(spec) => match &spec.holder_identity {
                Some(holder) => *holder == identity.to_owned(),
                None => false,
            },
            None => false,
        }
    }

    /// How often the lease has passed from one holder to another.
    pub fn transitions(&self) -> (count: i32)
        ensures
            count == self@.record().transitions(),
    {
        match &self.spec {
            Some(spec) => match spec.lease_transitions {
                Some(count) => count,
                None => 0,
            },
            None => 0,
        }
    }

    /// The lease after `identity`, who holds it, renews it at `at`.
    pub fn renewed(self, identity: &str, lease_secs: i32, at: Timestamp) -> (lease: Lease)
        ensures
            lease@ == self@.with(self@.record().renewed(identity@, lease_secs, at@)),
    {
        let spec = match self.spec {
            Some(spec) => spec,
            None => LeaseSpec::empty(),
        };
        Lease {
            metadata: self.metadata,
            spec: Some(
                LeaseSpec {
                    holder_identity: Some(identity.to_owned()),
                    lease_duration_seconds: Some(lease_secs),
                    renew_time: Some(at),
                    ..spec
                },
            ),
        }
    }

    /// The lease after `identity` takes it over at `at`.
    pub fn taken_over(self, identity: &str, lease_secs: i32, at: Timestamp) -> (lease: Lease)
        requires
            self@.record().transitions() < i32::MAX,
        ensures
            lease@ == self@.with(self@.record().taken_over(identity@, lease_secs, at@)),
    {
        let transitions: i32 = self.transitions() + 1;
        let spec = match self.spec {
            Some(spec) => spec,
            None => LeaseSpec::empty(),
        };
        Lease {
            metadata: self.metadata,
            spec: Some(
                LeaseSpec {
                    holder_identity: Some(identity.to_owned()),
                    lease_duration_seconds: Some(lease_secs),
                    acquire_time: Some(at),
                    renew_time: Some(at),
                    lease_transitions: Some(transitions),
                    ..spec
                },
            ),
        }
    }

    /// The lease after its holder lets go of it. The time of the last renewal stays.
    pub fn released(self) -> (lease: Lease)
        ensures
            lease@ == self@.with(self@.record().released()),
    {
        let spec = match self.spec {
            Some(spec) => spec,
            None => LeaseSpec::empty(),
        };
        Lease { metadata: self.metadata, spec: Some(LeaseSpec { holder_identity: None, ..spec }) }
    }
}

} // verus!
