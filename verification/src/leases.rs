use vstd::prelude::*;

use crate::text::{hex_text, push_hex};

verus! {

/// The identifier of a GPU lease.
#[derive(Clone, Copy, Debug, PartialEq, Eq, Structural)]
pub struct Uuid(pub u128);

impl Uuid {
    /// The identifier as 32 lowercase hexadecimal digits, zero padded.
    pub fn to_hex(&self) -> (text: String)
        ensures
            text@ == hex_text(self.0 as nat, 32),
    {
        let mut out = String::new();
        push_hex(&mut out, self.0, 32);
        proof {
            assert(Seq::<char>::empty() + hex_text(self.0 as nat, 32) =~= hex_text(self.0 as nat, 32));
        }
        out
    }
}

/// The right to run GPU-heavy work, held by one task at a time. Only the
/// lease manager makes one.
#[derive(Debug, PartialEq, Eq, Structural)]
pub struct GpuLease {
    pub(crate) id: Uuid,
}

impl GpuLease {
    /// The lease's identifier.
    pub closed spec fn identifier(&self) -> Uuid {
        self.id
    }

    /// The lease's identifier.
    pub fn id(&self) -> (id: Uuid)
        ensures
            id == self.identifier(),
    {
        self.id
    }
}

/// Who holds the GPU: at most one lease is active at any time. Leases are
/// numbered from 1 in the order they are granted, so no identifier is
/// granted twice.
pub struct GpuLeaseManager {
    active_id: Option<Uuid>,
    next_id: u64,
    granted: Ghost<Set<u128>>,
}

/// The holder after an acquisition attempt with `id`: unchanged when a lease
/// is active, `id` otherwise.
pub open spec fn holder_after_acquire(holder: Option<Uuid>, id: Uuid) -> Option<Uuid> {
    if holder is Some {
        holder
    } else {
        Some(id)
    }
}

/// The holder after the lease `id` is released: none when `id` holds the GPU,
/// unchanged otherwise.
pub open spec fn holder_after_release(holder: Option<Uuid>, id: Uuid) -> Option<Uuid> {
    if holder == Some(id) {
        None
    } else {
        holder
    }
}

impl View for GpuLeaseManager {
    type V = Option<Uuid>;

    /// The identifier of the active lease, if any.
    closed spec fn view(&self) -> Option<Uuid> {
        self.active_id
    }
}

impl GpuLeaseManager {
    /// Every granted identifier is below the next one, and the active lease,
    /// if any, is one that was granted.
    #[verifier::type_invariant]
    closed spec fn ids_are_fresh(self) -> bool {
        &&& self.next_id >= 1
        &&& forall|g: u128| #[trigger] self.granted@.contains(g) ==> g < self.next_id
        &&& (self.active_id matches Some(a) ==> self.granted@.contains(a.0))
    }

    /// The identifier the next granted lease receives.
    pub closed spec fn next_lease_id(&self) -> nat {
        self.next_id as nat
    }

    /// The identifiers granted so far.
    pub closed spec fn granted_ids(&self) -> Set<u128> {
        self.granted@
    }

    /// A manager with no active lease that has granted none yet; its first
    /// lease is number 1.
    pub fn new() -> (manager: Self)
        ensures
            manager@ is None,
            manager.next_lease_id() == 1,
            manager.granted_ids() == Set::<u128>::empty(),
    {
        GpuLeaseManager { active_id: None, next_id: 1, granted: Ghost(Set::empty()) }
    }

    /// The identifier the next granted lease receives.
    pub fn next_id(&self) -> (id: u64)
        ensures
            id == self.next_lease_id(),
    {
        self.next_id
    }

    /// Grants the next lease when none is active. The new identifier was
    /// never granted before; a refused attempt changes nothing.
    pub fn try_acquire(&mut self) -> (lease: Option<GpuLease>)
        requires
            old(self).next_lease_id() < u64::MAX,
        ensures
            final(self)@ == holder_after_acquire(old(self)@, Uuid(old(self).next_lease_id() as u128)),
            old(self)@ is Some ==> lease is None && final(self).next_lease_id() == old(self).next_lease_id()
                && final(self).granted_ids() == old(self).granted_ids(),
            old(self)@ is None ==> {
                &&& lease matches Some(l) && l.identifier() == Uuid(old(self).next_lease_id() as u128)
                &&& !old(self).granted_ids().contains(old(self).next_lease_id() as u128)
                &&& final(self).granted_ids() == old(self).granted_ids().insert(old(self).next_lease_id() as u128)
                &&& final(self).next_lease_id() == old(self).next_lease_id() + 1
            },
    {
        proof {
            use_type_invariant(&*self);
        }
        if self.active_id.is_some() {
            return None;
        }
        let id = Uuid(self.next_id as u128);
        let ghost granted = self.granted@.insert(id.0);
        let next_id = self.next_id + 1;
        *self = GpuLeaseManager { active_id: Some(id), next_id, granted: Ghost(granted) };
        Some(GpuLease { id })
    }

    /// Whether a lease is active.
    pub fn is_active(&self) -> (active: bool)
        ensures
            active == (self@ is Some),
    {
        self.active_id.is_some()
    }

    /// Ends `lease`: the GPU is free afterwards if `lease` was the active one;
    /// a lease that is no longer active changes nothing. The numbering goes on.
    pub fn release(&mut self, lease: GpuLease)
        ensures
            final(self)@ == holder_after_release(old(self)@, lease.identifier()),
            final(self).next_lease_id() == old(self).next_lease_id(),
            final(self).granted_ids() == old(self).granted_ids(),
    {
        proof {
            use_type_invariant(&*self);
        }
        let held = match self.active_id {
            Some(active) => active.0 == lease.id.0,
            None => false,
        };
        if held {
            self.active_id = None;
        }
    }
}

impl Default for GpuLeaseManager {
    fn default() -> (manager: Self)
        ensures
            manager@ is None,
            manager.next_lease_id() == 1,
            manager.granted_ids() == Set::<u128>::empty(),
    {
        GpuLeaseManager::new()
    }
}

/// A held lease is exclusive: while one is active, no acquisition succeeds,
/// whatever identifier it asks for, and the holder stays the same.
pub proof fn lemma_lease_is_exclusive(holder: Option<Uuid>, id: Uuid)
    requires
        holder is Some,
    ensures
        holder_after_acquire(holder, id) == holder,
{
}

/// Releasing the active lease frees the GPU, and the next acquisition then
/// succeeds with its own identifier.
pub proof fn lemma_release_frees_the_gpu(id: Uuid, next: Uuid)
    ensures
        holder_after_release(Some(id), id) is None,
        holder_after_acquire(holder_after_release(Some(id), id), next) == Some(next),
{
}

/// Releasing a lease that is not the active one leaves the active lease in
/// place: a stale lease never frees the GPU held by another.
pub proof fn lemma_stale_release_keeps_holder(holder: Option<Uuid>, id: Uuid)
    requires
        holder != Some(id),
    ensures
        holder_after_release(holder, id) == holder,
{
}

/// A successful acquisition followed by the release of the same lease
/// returns the manager to its free state.
pub proof fn lemma_acquire_then_release_round_trip(id: Uuid)
    ensures
        holder_after_release(holder_after_acquire(None, id), id) is None,
{
}

} // verus!
