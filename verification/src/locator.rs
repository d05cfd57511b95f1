//! The locator: one slot behind a reader/writer lock.
//!
//! The two kinds of call treat a poisoned lock differently, and on purpose.
//! A registration needs exclusive access anyway and overwrites the cell, so
//! it recovers the lock and lifts the poison. A request for access reports the
//! poison and leaves it latched: the caller decides whether to trust what the
//! slot holds, and the report stays the same until somebody registers anew.
//!
//! What a call finds depends on the other threads, so each method states what
//! holds of every outcome. The decision that follows the taking of the lock
//! stands in a function of its own, which takes what the lock gave and states
//! exactly what is returned and what the slot holds afterwards.

use vstd::prelude::*;
use std::sync::RwLock;
use crate::error::ServiceLocatorError;
use crate::guard::ServiceReadGuard;
use crate::guard::ServiceWriteGuard;
use crate::lock::Acquired;
use crate::lock::ReadHold;
use crate::lock::acquire_read;
use crate::lock::acquire_write;
use crate::lock::clear_poison;
use crate::lock::new_lock;
use crate::lock::read_cell;
use crate::lock::write_cell;
use crate::lock::write_cell_mut;
use crate::slot::Slot;
use crate::slot::grant;
use crate::slot::install;
use crate::slot::try_install;

verus! {

/// A slot for one boxed service of type `T`, shared between threads.
#[verifier::reject_recursive_types(T)]
pub struct ServiceLocator<T: ?Sized> {
    service: RwLock<Option<Box<T>>>,
}

/// The slot that an exclusive hold was taken on: the cell as the hold finds
/// it, and the latch as the lock reported it.
pub open spec fn slot_found<'a, T: ?Sized>(acquired: Acquired<'a, T>) -> Slot<Box<T>> {
    Slot { cell: acquired.hold.cell(), poisoned: acquired.poisoned }
}

/// Registers `service` under an exclusive hold, whatever the slot held,
/// unlatches the lock if it was found poisoned, and hands back what the cell
/// held.
pub fn provide_under<'a, T: ?Sized>(acquired: &mut Acquired<'a, T>, service: Box<T>) -> (prev: Option<
    Box<T>,
>)
    ensures
        prev == old(acquired).hold.cell(),
        final(acquired).poisoned == false,
        slot_found(*final(acquired)) == slot_found(*old(acquired)).provide(service),
{
    if acquired.poisoned {
        clear_poison(&acquired.hold);
        acquired.poisoned = false;
    }
    install(write_cell_mut(&mut acquired.hold), service)
}

/// Registers `service` under an exclusive hold if the slot is empty or was
/// found poisoned, in which case the lock is unlatched; refuses, and leaves
/// the cell as it is, if not.
pub fn try_provide_under<'a, T: ?Sized>(acquired: &mut Acquired<'a, T>, service: Box<T>) -> (res:
    Result<(), ServiceLocatorError>)
    ensures
        res == slot_found(*old(acquired)).try_provide_result(),
        final(acquired).poisoned == false,
        slot_found(*final(acquired)) == slot_found(*old(acquired)).try_provide(service),
        res is Err ==> final(acquired).hold.cell() == old(acquired).hold.cell(),
{
    let found = acquired.poisoned;
    if found {
        clear_poison(&acquired.hold);
        acquired.poisoned = false;
    }
    try_install(write_cell_mut(&mut acquired.hold), found, service)
}

/// Decides a request for shared access from what `RwLock::read` gave: no
/// hold on a poisoned lock, or a hold on the cell.
pub fn grant_read<'a, T: ?Sized>(acquired: Option<ReadHold<'a, T>>) -> (res: Result<
    ServiceReadGuard<'a, T>,
    ServiceLocatorError,
>)
    ensures
        match acquired {
            None => res matches Err(e) && e == ServiceLocatorError::Poisoned,
            Some(hold) => match (Slot { cell: hold.cell(), poisoned: false }).access() {
                Ok(_) => res matches Ok(guard) && guard.cell() == hold.cell(),
                Err(e) => res matches Err(r) && r == e,
            },
        },
{
    match acquired {
        None => Err(ServiceLocatorError::Poisoned),
        Some(hold) => {
            let verdict = grant(read_cell(&hold), false).is_ok();
            if verdict {
                Ok(ServiceReadGuard::new(hold))
            } else {
                Err(ServiceLocatorError::NotProvided)
            }
        },
    }
}

/// Decides a request for exclusive access from what `RwLock::write` gave: a
/// hold, and whether the lock was found poisoned.
pub fn grant_write<'a, T: ?Sized>(acquired: Acquired<'a, T>) -> (res: Result<
    ServiceWriteGuard<'a, T>,
    ServiceLocatorError,
>)
    ensures
        match slot_found(acquired).access() {
            Ok(_) => res matches Ok(guard) && guard.cell() == acquired.hold.cell(),
            Err(e) => res matches Err(r) && r == e,
        },
{
    let Acquired { hold, poisoned } = acquired;
    match grant(write_cell(&hold), poisoned) {
        Ok(_) => Ok(ServiceWriteGuard::new(hold)),
        Err(e) => Err(e),
    }
}

impl<T: ?Sized> ServiceLocator<T> {
    /// A locator with an empty slot.
    pub fn new() -> (locator: Self) {
        ServiceLocator { service: new_lock() }
    }

    /// Provides a service; one that is already provided is replaced.
    pub fn provide(&self, service: Box<T>) {
        let _replaced = {
            let mut acquired = acquire_write(&self.service);
            provide_under(&mut acquired, service)
        };
    }

    /// Provides a service unless one is already provided.
    pub fn try_provide(&self, service: Box<T>) -> (res: Result<(), ServiceLocatorError>)
        ensures
            res matches Err(e) ==> e == ServiceLocatorError::AlreadyProvided,
    {
        let mut acquired = acquire_write(&self.service);
        try_provide_under(&mut acquired, service)
    }

    /// A read guard over the service.
    pub fn service(&self) -> (res: Result<ServiceReadGuard<'_, T>, ServiceLocatorError>)
        ensures
            res matches Ok(guard) ==> guard.cell() is Some,
            res matches Err(e) ==> e == ServiceLocatorError::NotProvided || e
                == ServiceLocatorError::Poisoned,
    {
        grant_read(acquire_read(&self.service))
    }

    /// A write guard over the service.
    pub fn service_mut(&self) -> (res: Result<ServiceWriteGuard<'_, T>, ServiceLocatorError>)
        ensures
            res matches Ok(guard) ==> guard.cell() is Some,
            res matches Err(e) ==> e == ServiceLocatorError::NotProvided || e
                == ServiceLocatorError::Poisoned,
    {
        grant_write(acquire_write(&self.service))
    }
}

} // verus!
