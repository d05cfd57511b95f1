//! The reader/writer lock of the standard library, and the holds taken on it.
//!
//! Nothing here is proved: each function states what the standard library
//! documents of the call in its body.

use vstd::prelude::*;
use vstd::pervasive::unreached;
use std::sync::RwLock;
use std::sync::RwLockReadGuard;
use std::sync::RwLockWriteGuard;

verus! {

#[verifier::external_type_specification]
#[verifier::external_body]
#[verifier::reject_recursive_types(T)]
pub struct ExRwLock<T: ?Sized>(RwLock<T>);

#[verifier::external_type_specification]
#[verifier::external_body]
#[verifier::reject_recursive_types(T)]
pub struct ExRwLockReadGuard<'a, T: ?Sized>(RwLockReadGuard<'a, T>);

#[verifier::external_type_specification]
#[verifier::external_body]
#[verifier::reject_recursive_types(T)]
pub struct ExRwLockWriteGuard<'a, T: ?Sized + 'a>(RwLockWriteGuard<'a, T>);

/// A shared hold on the lock of a slot. While it lasts no writer can get in,
/// so the cell that the lock protects does not change: `cell` is that cell.
#[verifier::reject_recursive_types(T)]
pub struct ReadHold<'a, T: ?Sized> {
    guard: RwLockReadGuard<'a, Option<Box<T>>>,
    cell: Ghost<Option<Box<T>>>,
}

/// An exclusive hold on the lock of a slot. While it lasts the cell that the
/// lock protects changes only through the hold: `cell` is that cell.
#[verifier::reject_recursive_types(T)]
pub struct WriteHold<'a, T: ?Sized> {
    lock: &'a RwLock<Option<Box<T>>>,
    guard: RwLockWriteGuard<'a, Option<Box<T>>>,
    cell: Ghost<Option<Box<T>>>,
}

/// An exclusive hold, and whether the lock was found poisoned when it was
/// taken.
#[verifier::reject_recursive_types(T)]
pub struct Acquired<'a, T: ?Sized> {
    pub hold: WriteHold<'a, T>,
    pub poisoned: bool,
}

impl<'a, T: ?Sized> ReadHold<'a, T> {
    /// The cell that the lock protects while the hold lasts.
    pub closed spec fn cell(&self) -> Option<Box<T>> {
        self.cell@
    }
}

impl<'a, T: ?Sized> WriteHold<'a, T> {
    /// The cell that the lock protects, as the hold last left it.
    pub closed spec fn cell(&self) -> Option<Box<T>> {
        self.cell@
    }
}

/// `RwLock::new` on an empty cell. The lock is opaque, so nothing is stated of
/// it.
#[verifier::external_body]
pub(crate) fn new_lock<T: ?Sized>() -> (lock: RwLock<Option<Box<T>>>) {
    RwLock::new(None)
}

/// `RwLock::read`: blocks until shared access is had. `None` stands for the
/// error that the standard library returns when the lock is poisoned; what
/// comes back depends on the other threads, so nothing is promised of it.
#[verifier::external_body]
pub(crate) fn acquire_read<'a, T: ?Sized>(lock: &'a RwLock<Option<Box<T>>>) -> (res: Option<
    ReadHold<'a, T>,
>) {
    match lock.read() {
        Ok(guard) => Some(ReadHold { guard, cell: Ghost(arbitrary()) }),
        Err(_) => None,
    }
}

/// `RwLock::write`: blocks until exclusive access is had. On a poisoned lock
/// the standard library hands the guard out inside its error; it is taken out
/// and `poisoned` is set. What comes back depends on the other threads, so
/// nothing is promised of it.
#[verifier::external_body]
pub(crate) fn acquire_write<'a, T: ?Sized>(lock: &'a RwLock<Option<Box<T>>>) -> (res: Acquired<
    'a,
    T,
>) {
    match lock.write() {
        Ok(guard) => Acquired {
            hold: WriteHold { lock, guard, cell: Ghost(arbitrary()) },
            poisoned: false,
        },
        Err(err) => Acquired {
            hold: WriteHold { lock, guard: err.into_inner(), cell: Ghost(arbitrary()) },
            poisoned: true,
        },
    }
}

/// `RwLock::clear_poison`, on the lock that the hold was taken on: unlatches
/// the poison flag. The lock is opaque, so nothing is stated; the cell is
/// out of the call's reach.
#[verifier::external_body]
pub(crate) fn clear_poison<'a, T: ?Sized>(hold: &WriteHold<'a, T>) {
    hold.lock.clear_poison()
}

/// `Deref` of a read guard: a reference to the cell that the lock protects.
#[verifier::external_body]
pub(crate) fn read_cell<'g, 'a, T: ?Sized>(hold: &'g ReadHold<'a, T>) -> (cell: &'g Option<Box<T>>)
    ensures
        *cell == hold.cell(),
{
    &*hold.guard
}

/// `Deref` of a write guard: a reference to the cell that the lock protects.
#[verifier::external_body]
pub(crate) fn write_cell<'g, 'a, T: ?Sized>(hold: &'g WriteHold<'a, T>) -> (cell: &'g Option<
    Box<T>,
>)
    ensures
        *cell == hold.cell(),
{
    &*hold.guard
}

/// `DerefMut` of a write guard: a mutable reference to the cell that the lock
/// protects. What is written through it is what the lock protects afterwards.
#[verifier::external_body]
pub(crate) fn write_cell_mut<'g, 'a, T: ?Sized>(hold: &'g mut WriteHold<'a, T>) -> (cell: &'g mut Option<
    Box<T>,
>)
    ensures
        *cell == old(hold).cell(),
        final(hold).cell() == *final(cell),
{
    &mut *hold.guard
}

/// `DerefMut` of a write guard over an occupied cell: a mutable reference to
/// the box in the cell. The cell stays occupied, by what is left behind the
/// reference. The call does not panic: the empty cell is left out.
#[verifier::external_body]
pub(crate) fn occupant_mut<'g, 'a, T: ?Sized>(hold: &'g mut WriteHold<'a, T>) -> (service: &'g mut Box<
    T,
>)
    requires
        old(hold).cell() is Some,
    ensures
        old(hold).cell() == Some(*service),
        final(hold).cell() == Some(*final(service)),
    no_unwind
{
    match &mut *hold.guard {
        Some(service) => service,
        None => unreached(),
    }
}

} // verus!
