//! Identifiers of stateful services and of invocations.
use vstd::prelude::*;

verus! {

/// Position of an entry in an invocation's journal.
pub type EntryIndex = u32;

/// Opaque 128-bit identity of one invocation attempt.
#[derive(Clone, Copy, Debug, PartialEq, Eq, Structural, Hash)]
pub struct InvocationId(pub u128);

/// Identity of a stateful entity: a service name and a key.
#[derive(Debug, PartialEq, Eq, Hash)]
pub struct ServiceId {
    pub service_name: String,
    pub key: Vec<u8>,
}

/// Mathematical value of a [`ServiceId`].
pub struct ServiceIdView {
    pub service_name: Seq<char>,
    pub key: Seq<u8>,
}

impl View for ServiceId {
    type V = ServiceIdView;

    open spec fn view(&self) -> ServiceIdView {
        ServiceIdView { service_name: self.service_name@, key: self.key@ }
    }
}

impl ServiceId {
    pub fn new(service_name: String, key: Vec<u8>) -> (r: ServiceId)
        ensures
            r.service_name == service_name,
            r.key == key,
    {
        ServiceId { service_name, key }
    }

    /// A copy with the same name and key.
    pub fn duplicate(&self) -> (r: ServiceId)
        ensures
            r@ == self@,
    {
        let key = self.key.clone();
        assert(key@ =~= self.key@);
        ServiceId { service_name: self.service_name.clone(), key }
    }
}

impl Clone for ServiceId {
    fn clone(&self) -> (r: ServiceId)
        ensures
            r@ == self@,
    {
        self.duplicate()
    }
}

/// One invocation of one service entity.
#[derive(Debug, PartialEq, Eq, Hash)]
pub struct ServiceInvocationId {
    pub service_id: ServiceId,
    pub invocation_id: InvocationId,
}

/// Mathematical value of a [`ServiceInvocationId`].
pub struct ServiceInvocationIdView {
    pub service_id: ServiceIdView,
    pub invocation_id: InvocationId,
}

impl View for ServiceInvocationId {
    type V = ServiceInvocationIdView;

    open spec fn view(&self) -> ServiceInvocationIdView {
        ServiceInvocationIdView { service_id: self.service_id@, invocation_id: self.invocation_id }
    }
}

impl ServiceInvocationId {
    pub fn new(service_id: ServiceId, invocation_id: InvocationId) -> (r: ServiceInvocationId)
        ensures
            r.service_id == service_id,
            r.invocation_id == invocation_id,
    {
        ServiceInvocationId { service_id, invocation_id }
    }

    /// A copy with the same service and invocation.
    pub fn duplicate(&self) -> (r: ServiceInvocationId)
        ensures
            r@ == self@,
    {
        ServiceInvocationId { service_id: self.service_id.duplicate(), invocation_id: self.invocation_id }
    }
}

impl Clone for ServiceInvocationId {
    fn clone(&self) -> (r: ServiceInvocationId)
        ensures
            r@ == self@,
    {
        self.duplicate()
    }
}

} // verus!

verus! {

/// A partition together with the term of its current leader.
#[derive(Clone, Copy, Debug, PartialEq, Eq, Structural, Hash)]
pub struct PartitionLeaderEpoch {
    pub partition_id: u32,
    pub leader_epoch: u64,
}

} // verus!
