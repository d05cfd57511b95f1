//! The slot as a value: what it holds, whether it is poisoned, and what each
//! operation makes of it.

use vstd::prelude::*;
use crate::error::ServiceLocatorError;

verus! {

/// What a locator is at one moment: the cell, empty or occupied, and the
/// latch that an abnormally ended writer sets.
pub struct Slot<V> {
    pub cell: Option<V>,
    pub poisoned: bool,
}

/// One call on a locator, or the abnormal end of a holder of a write guard.
pub enum Op<V> {
    Provide(V),
    TryProvide(V),
    Service,
    ServiceMut,
    WriterPanic,
}

impl<V> Op<V> {
    /// Whether the operation is a registration, conditional or not.
    pub open spec fn is_registration(self) -> bool {
        self is Provide || self is TryProvide
    }
}

impl<V> Slot<V> {
    /// The slot of a new locator.
    pub open spec fn empty() -> Self {
        Slot { cell: None, poisoned: false }
    }

    /// The slot after an unconditional registration of `v`.
    pub open spec fn provide(self, v: V) -> Self {
        Slot { cell: Some(v), poisoned: false }
    }

    /// What a conditional registration finds once it has recovered the lock:
    /// a poisoned slot counts as empty.
    pub open spec fn recovered(self) -> Option<V> {
        if self.poisoned {
            None
        } else {
            self.cell
        }
    }

    /// Whether a conditional registration succeeds.
    pub open spec fn accepts(self) -> bool {
        self.recovered() is None
    }

    /// What a conditional registration returns.
    pub open spec fn try_provide_result(self) -> Result<(), ServiceLocatorError> {
        if self.accepts() {
            Ok(())
        } else {
            Err(ServiceLocatorError::AlreadyProvided)
        }
    }

    /// The slot after a conditional registration of `v`.
    pub open spec fn try_provide(self, v: V) -> Self {
        if self.accepts() {
            Slot { cell: Some(v), poisoned: false }
        } else {
            self
        }
    }

    /// What a request for access, shared or exclusive, finds.
    pub open spec fn access(self) -> Result<V, ServiceLocatorError> {
        if self.poisoned {
            Err(ServiceLocatorError::Poisoned)
        } else {
            match self.cell {
                Some(v) => Ok(v),
                None => Err(ServiceLocatorError::NotProvided),
            }
        }
    }

    /// The slot after a holder of a write guard ended abnormally. Only an
    /// occupied, unpoisoned slot hands out write guards.
    pub open spec fn writer_panic(self) -> Self {
        if self.access() is Ok {
            Slot { cell: self.cell, poisoned: true }
        } else {
            self
        }
    }

    /// The slot after one operation.
    pub open spec fn step(self, op: Op<V>) -> Self {
        match op {
            Op::Provide(v) => self.provide(v),
            Op::TryProvide(v) => self.try_provide(v),
            Op::Service => self,
            Op::ServiceMut => self,
            Op::WriterPanic => self.writer_panic(),
        }
    }

    /// The slot after a sequence of operations, first to last.
    pub open spec fn run(self, ops: Seq<Op<V>>) -> Self
        decreases ops.len(),
    {
        if ops.len() == 0 {
            self
        } else {
            self.run(ops.drop_last()).step(ops.last())
        }
    }
}

/// Installs `service` whatever the cell held, and hands back what it held.
pub fn install<T: ?Sized>(cell: &mut Option<Box<T>>, service: Box<T>) -> (prev: Option<Box<T>>)
    ensures
        prev == *old(cell),
        *final(cell) == Some(service),
        (Slot { cell: *final(cell), poisoned: false }) == (Slot {
            cell: *old(cell),
            poisoned: false,
        }).provide(service),
{
    let mut incoming = Some(service);
    std::mem::swap(cell, &mut incoming);
    incoming
}

/// Installs `service` if the cell is empty, or if the lock was found poisoned,
/// in which case what the cell held is discarded first. On refusal the cell is
/// left as it was and `service` is dropped.
pub fn try_install<T: ?Sized>(
    cell: &mut Option<Box<T>>,
    poisoned: bool,
    service: Box<T>,
) -> (res: Result<(), ServiceLocatorError>)
    ensures
        res == (Slot { cell: *old(cell), poisoned }).try_provide_result(),
        *final(cell) == (Slot { cell: *old(cell), poisoned }).try_provide(service).cell,
        res is Ok <==> (poisoned || *old(cell) is None),
{
    if poisoned {
        let mut nothing: Option<Box<T>> = None;
        std::mem::swap(cell, &mut nothing);
    }
    if cell.is_none() {
        let mut incoming = Some(service);
        std::mem::swap(cell, &mut incoming);
        return Ok(());
    }
    Err(ServiceLocatorError::AlreadyProvided)
}

/// Decides a request for access from what the lock reported and the cell
/// holds: the service, or the reason why there is none to hand out.
pub fn grant<'c, T: ?Sized>(cell: &'c Option<Box<T>>, poisoned: bool) -> (res: Result<
    &'c Box<T>,
    ServiceLocatorError,
>)
    ensures
        match (Slot { cell: *cell, poisoned }).access() {
            Ok(v) => res == Ok::<&Box<T>, ServiceLocatorError>(&v),
            Err(e) => res == Err::<&Box<T>, ServiceLocatorError>(e),
        },
{
    if poisoned {
        return Err(ServiceLocatorError::Poisoned);
    }
    match cell {
        Some(service) => Ok(service),
        None => Err(ServiceLocatorError::NotProvided),
    }
}

/// On a slot that was empty from the start, access is refused for want of a
/// service for as long as no registration is among the operations.
pub proof fn lemma_empty_until_registered<V>(ops: Seq<Op<V>>)
    requires
        forall|i: int| 0 <= i < ops.len() ==> !(#[trigger] ops[i]).is_registration(),
    ensures
        Slot::<V>::empty().run(ops) == Slot::<V>::empty(),
        Slot::<V>::empty().run(ops).access() == Err::<V, ServiceLocatorError>(
            ServiceLocatorError::NotProvided,
        ),
    decreases ops.len(),
{
    if ops.len() > 0 {
        lemma_empty_until_registered(ops.drop_last());
    }
}

/// After a registration, access finds the service that was registered; after
/// a second one it finds the second service, whatever the first was.
pub proof fn lemma_access_finds_latest<V>(slot: Slot<V>, first: V, second: V)
    ensures
        slot.provide(first).access() == Ok::<V, ServiceLocatorError>(first),
        slot.provide(first).provide(second).access() == Ok::<V, ServiceLocatorError>(second),
        slot.provide(first).step(Op::Service) == slot.provide(first),
        slot.provide(first).step(Op::ServiceMut) == slot.provide(first),
{
}

/// On an unpoisoned slot a conditional registration succeeds exactly when the
/// cell is empty, and then access finds the new service; when it fails, it
/// fails for an occupied cell and leaves the slot as it was.
pub proof fn lemma_try_provide_only_fills_empty<V>(slot: Slot<V>, v: V)
    requires
        !slot.poisoned,
    ensures
        slot.try_provide_result() is Ok <==> slot.cell is None,
        slot.try_provide_result() is Ok ==> slot.try_provide(v).access() == Ok::<
            V,
            ServiceLocatorError,
        >(v),
        slot.try_provide_result() is Err ==> slot.try_provide_result() == Err::<
            (),
            ServiceLocatorError,
        >(ServiceLocatorError::AlreadyProvided) && slot.try_provide(v) == slot,
{
}

/// A poisoned slot counts as empty for a conditional registration: it
/// succeeds, and access finds the new service.
pub proof fn lemma_try_provide_recovers<V>(slot: Slot<V>, v: V)
    requires
        slot.poisoned,
    ensures
        slot.try_provide_result() is Ok,
        slot.try_provide(v).access() == Ok::<V, ServiceLocatorError>(v),
{
}

/// Once a holder of a write guard has ended abnormally, access is refused as
/// poisoned for as long as no registration is among the operations.
pub proof fn lemma_poison_latched<V>(slot: Slot<V>, ops: Seq<Op<V>>)
    requires
        slot.access() is Ok,
        forall|i: int| 0 <= i < ops.len() ==> !(#[trigger] ops[i]).is_registration(),
    ensures
        slot.writer_panic().run(ops) == slot.writer_panic(),
        slot.writer_panic().run(ops).access() == Err::<V, ServiceLocatorError>(
            ServiceLocatorError::Poisoned,
        ),
    decreases ops.len(),
{
    if ops.len() > 0 {
        lemma_poison_latched(slot, ops.drop_last());
    }
}

/// An unconditional registration lifts the poison: access finds the new
/// service.
pub proof fn lemma_provide_lifts_poison<V>(slot: Slot<V>, v: V)
    ensures
        slot.writer_panic().provide(v).access() == Ok::<V, ServiceLocatorError>(v),
        !slot.writer_panic().provide(v).poisoned,
{
}

} // verus!
