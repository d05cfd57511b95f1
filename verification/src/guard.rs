//! The scoped accessors that the locator hands out.

use vstd::prelude::*;
use vstd::pervasive::unreached;
use crate::lock::ReadHold;
use crate::lock::WriteHold;
use crate::lock::read_cell;
use crate::lock::write_cell;
use crate::lock::occupant_mut;

verus! {

/// Shared access to the service of a locator. The lock is released when the
/// guard is dropped.
#[verifier::reject_recursive_types(T)]
pub struct ServiceReadGuard<'a, T: ?Sized + 'a> {
    service: ReadHold<'a, T>,
}

impl<'a, T: ?Sized + 'a> ServiceReadGuard<'a, T> {
    /// A guard is only ever made over an occupied cell.
    #[verifier::type_invariant]
    closed spec fn occupied(&self) -> bool {
        self.service.cell() is Some
    }

    /// The cell that the guard gives access to.
    pub closed spec fn cell(&self) -> Option<Box<T>> {
        self.service.cell()
    }

    /// Makes a guard of a shared hold on an occupied cell.
    pub(crate) fn new(service: ReadHold<'a, T>) -> (guard: ServiceReadGuard<'a, T>)
        requires
            service.cell() is Some,
        ensures
            guard.cell() == service.cell(),
    {
        ServiceReadGuard { service }
    }

}

impl<'a, T: ?Sized> std::ops::Deref for ServiceReadGuard<'a, T> {
    type Target = T;

    /// The service, by shared reference.
    fn deref(&self) -> (service: &T)
        ensures
            self.cell() matches Some(held) && &*held == service,
    {
        proof {
            use_type_invariant(self);
        }
        match read_cell(&self.service) {
            Some(service) => &**service,
            None => unreached(),
        }
    }
}

/// Exclusive access to the service of a locator. The lock is released when the
/// guard is dropped.
#[verifier::reject_recursive_types(T)]
pub struct ServiceWriteGuard<'a, T: ?Sized + 'a> {
    service: WriteHold<'a, T>,
}

impl<'a, T: ?Sized + 'a> ServiceWriteGuard<'a, T> {
    /// A guard is only ever made over an occupied cell.
    #[verifier::type_invariant]
    closed spec fn occupied(&self) -> bool {
        self.service.cell() is Some
    }

    /// The cell that the guard gives access to.
    pub closed spec fn cell(&self) -> Option<Box<T>> {
        self.service.cell()
    }

    /// Makes a guard of an exclusive hold on an occupied cell.
    pub(crate) fn new(service: WriteHold<'a, T>) -> (guard: ServiceWriteGuard<'a, T>)
        requires
            service.cell() is Some,
        ensures
            guard.cell() == service.cell(),
    {
        ServiceWriteGuard { service }
    }
}

impl<'a, T: ?Sized> std::ops::Deref for ServiceWriteGuard<'a, T> {
    type Target = T;

    /// The service, by shared reference.
    fn deref(&self) -> (service: &T)
        ensures
            self.cell() matches Some(held) && &*held == service,
    {
        proof {
            use_type_invariant(self);
        }
        match write_cell(&self.service) {
            Some(service) => &**service,
            None => unreached(),
        }
    }
}

impl<'a, T: ?Sized> std::ops::DerefMut for ServiceWriteGuard<'a, T> {
    /// The service, by mutable reference. The cell stays occupied, by
    /// whatever the caller leaves behind the reference.
    fn deref_mut(&mut self) -> (service: &mut T)
        ensures
            old(self).cell() matches Some(held) && &*held == &*service,
            final(self).cell() matches Some(left) && &*left == &*final(service),
    {
        proof {
            use_type_invariant(&*self);
        }
        &mut **occupant_mut(&mut self.service)
    }
}

} // verus!
