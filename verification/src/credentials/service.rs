//! Late-bound service dependencies.
use vstd::prelude::*;

verus! {

/// A dependency that is set once after construction (to break a cycle
/// between services) and never replaced.
pub struct DependencySlot<T> {
    value: Option<T>,
}

impl<T> DependencySlot<T> {
    /// What the slot holds.
    pub closed spec fn held(&self) -> Option<T> {
        self.value
    }

    /// An empty slot.
    pub fn new() -> (s: Self)
        ensures
            s.held() is None,
    {
        DependencySlot { value: None }
    }

    /// Fills an empty slot; a filled slot keeps its value and hands the
    /// offered one back.
    pub fn set(&mut self, value: T) -> (r: Result<(), T>)
        ensures
            match old(self).held() {
                None => r is Ok && final(self).held() == Some(value),
                Some(v) => r == Err::<(), T>(value) && final(self).held() == Some(v),
            },
    {
        if self.value.is_some() {
            Err(value)
        } else {
            self.value = Some(value);
            Ok(())
        }
    }

    /// The value, once set.
    pub fn get(&self) -> (r: Option<&T>)
        ensures
            match self.held() {
                Some(v) => r == Some(&v),
                None => r is None,
            },
    {
        match &self.value {
            Some(v) => Some(v),
            None => None,
        }
    }
}

/// Only the first value offered to a slot is ever kept: after a first
/// successful set, a second set fails and hands its value back.
pub proof fn lemma_set_once<T>(empty: DependencySlot<T>, first: T, after_first: DependencySlot<T>, second: T, after_second: DependencySlot<T>, r: Result<(), T>)
    requires
        empty.held() is None,
        after_first.held() == Some(first),
        match after_first.held() {
            None => r is Ok && after_second.held() == Some(second),
            Some(v) => r == Err::<(), T>(second) && after_second.held() == Some(v),
        },
    ensures
        r == Err::<(), T>(second),
        after_second.held() == Some(first),
{
}

/// The credential service's late-bound host service.
pub struct CredentialService<H> {
    host_service: DependencySlot<H>,
}

impl<H> CredentialService<H> {
    pub closed spec fn host(&self) -> Option<H> {
        self.host_service.held()
    }

    /// A service whose host service is not yet set.
    pub fn new() -> (s: Self)
        ensures
            s.host() is None,
    {
        CredentialService { host_service: DependencySlot::new() }
    }

    /// Sets the host service after construction; fails, handing it back, if
    /// one was already set.
    pub fn set_host_service(&mut self, service: H) -> (r: Result<(), H>)
        ensures
            match old(self).host() {
                None => r is Ok && final(self).host() == Some(service),
                Some(v) => r == Err::<(), H>(service) && final(self).host() == Some(v),
            },
    {
        self.host_service.set(service)
    }
}

} // verus!
