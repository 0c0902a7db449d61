//! Dispatch for a host that owns a single bus and issues one handle for it.

use vstd::prelude::*;
use crate::bus::{
    bytes_view, is_read_result, is_transfer_in_place_result, is_transfer_result, is_write_result,
};
use crate::device::{Observed, OperationView, WasiSpiDevice};
use crate::error::ErrorCode;
use crate::host::{InternalError, map_lookup_error};
use crate::ops::{
    Descriptor, Operation, descriptors, is_transaction_result, is_transaction_trace, outcome_view,
    reply_len,
};
use crate::table::{Handle, LookupError};

verus! {

/// The one handle of a host with a single bus, and whether it is still live.
#[derive(Clone, Copy, Debug, PartialEq, Eq, Structural)]
pub struct Lease {
    /// The handle that was issued for the bus.
    pub handle: Handle,
    /// Whether the handle was not dropped yet.
    pub live: bool,
}

impl Lease {
    /// Whether `handle` reaches the bus.
    pub open spec fn is_live(&self, handle: Handle) -> bool {
        self.live && handle == self.handle
    }

    /// Whether `handle` was dropped.
    pub open spec fn is_dropped(&self, handle: Handle) -> bool {
        !self.live && handle == self.handle
    }

    /// What a failed lookup of `handle` reports.
    pub open spec fn lookup_error(&self, handle: Handle) -> LookupError {
        if self.is_dropped(handle) {
            LookupError::Stale
        } else {
            LookupError::Unknown
        }
    }

    /// A live lease of the first handle.
    pub fn new() -> (lease: Lease)
        ensures
            lease == (Lease { handle: Handle { index: 0, generation: 0 }, live: true }),
    {
        Lease { handle: Handle { index: 0, generation: 0 }, live: true }
    }

    /// Looks `handle` up.
    pub fn resolve(&self, handle: Handle) -> (res: Result<(), LookupError>)
        ensures
            match res {
                Ok(_) => self.is_live(handle),
                Err(e) => !self.is_live(handle) && e == self.lookup_error(handle),
            },
    {
        if handle == self.handle {
            if self.live {
                Ok(())
            } else {
                Err(LookupError::Stale)
            }
        } else {
            Err(LookupError::Unknown)
        }
    }

    /// Releases `handle`: it is dropped from then on.
    pub fn release(&mut self, handle: Handle) -> (res: Result<(), LookupError>)
        ensures
            match res {
                Ok(_) => {
                    &&& old(self).is_live(handle)
                    &&& *final(self) == (Lease { handle, live: false })
                },
                Err(e) => {
                    &&& !old(self).is_live(handle)
                    &&& e == old(self).lookup_error(handle)
                    &&& *final(self) == *old(self)
                },
            },
    {
        match self.resolve(handle) {
            Ok(_) => {
                self.live = false;
                Ok(())
            },
            Err(e) => Err(e),
        }
    }
}

/// One bus and the handle under which the guest reaches it.
pub struct SpiContext<T> {
    pub bus: Observed<T>,
    pub lease: Lease,
}

impl<T: WasiSpiDevice> SpiContext<T> {
    /// How a call on `handle` with the steps `requested` may change the
    /// context: the lease stays, and the bus is handed the translated steps
    /// in one call. Where the handle is dead nothing changes at all.
    pub open spec fn touches(
        pre: Self,
        handle: Handle,
        requested: Seq<Descriptor>,
        post: Self,
    ) -> bool {
        if pre.lease.is_live(handle) {
            &&& post.lease == pre.lease
            &&& is_transaction_trace(pre.bus, requested, post.bus)
        } else {
            post == pre
        }
    }

    /// What `drop` does: the live handle is released for good, and the bus
    /// is not called; any other handle is an error that changes nothing.
    pub open spec fn drop_step(
        pre: Self,
        handle: Handle,
        post: Self,
        res: Result<(), InternalError>,
    ) -> bool {
        if pre.lease.is_live(handle) {
            &&& res is Ok
            &&& post.bus == pre.bus
            &&& post.lease == (Lease { handle, live: false })
        } else {
            &&& res == Err::<(), InternalError>(
                InternalError { handle, cause: pre.lease.lookup_error(handle) },
            )
            &&& post == pre
        }
    }

    /// The context of `bus`, with a live handle for it.
    pub fn new(bus: T) -> (context: Self)
        ensures
            context.bus.bus() == bus,
            context.bus.seen() == Seq::<Seq<OperationView>>::empty(),
            context.lease == (Lease { handle: Handle { index: 0, generation: 0 }, live: true }),
    {
        SpiContext { bus: Observed::new(bus), lease: Lease::new() }
    }

    /// The handle that was issued for the bus.
    pub fn handle(&self) -> (handle: Handle)
        ensures
            handle == self.lease.handle,
    {
        self.lease.handle
    }

    /// Reads `len` bytes from the bus.
    pub fn read(&mut self, handle: Handle, len: u64) -> (res: Result<Vec<u8>, ErrorCode>)
        ensures
            Self::touches(*old(self), handle, seq![Descriptor::Read(len)], *final(self)),
            if old(self).lease.is_live(handle) {
                is_read_result(old(self).bus.bus(), len, bytes_view(res))
            } else {
                res == Err::<Vec<u8>, ErrorCode>(ErrorCode::Other)
            },
            res matches Ok(buf) ==> buf@.len() == len,
            !crate::ops::fits(len) ==> res == Err::<Vec<u8>, ErrorCode>(ErrorCode::Other),
    {
        match self.lease.resolve(handle) {
            Ok(_) => crate::bus::read(&mut self.bus, len),
            Err(cause) => Err(map_lookup_error(cause)),
        }
    }

    /// Writes `data` to the bus.
    pub fn write(&mut self, handle: Handle, data: Vec<u8>) -> (res: Result<(), ErrorCode>)
        ensures
            Self::touches(*old(self), handle, seq![Descriptor::Write(data@)], *final(self)),
            if old(self).lease.is_live(handle) {
                is_write_result(old(self).bus.bus(), data@, res)
            } else {
                res == Err::<(), ErrorCode>(ErrorCode::Other)
            },
    {
        match self.lease.resolve(handle) {
            Ok(_) => crate::bus::write(&mut self.bus, data),
            Err(cause) => Err(map_lookup_error(cause)),
        }
    }

    /// Writes `data` to the bus and reads as many bytes at the same time.
    pub fn transfer(&mut self, handle: Handle, data: Vec<u8>) -> (res: Result<Vec<u8>, ErrorCode>)
        ensures
            Self::touches(*old(self), handle, seq![Descriptor::Transfer(data@)], *final(self)),
            if old(self).lease.is_live(handle) {
                is_transfer_result(old(self).bus.bus(), data@, bytes_view(res))
            } else {
                res == Err::<Vec<u8>, ErrorCode>(ErrorCode::Other)
            },
            res matches Ok(buf) ==> buf@.len() == data@.len(),
    {
        match self.lease.resolve(handle) {
            Ok(_) => crate::bus::transfer(&mut self.bus, data),
            Err(cause) => Err(map_lookup_error(cause)),
        }
    }

    /// Writes `data` to the bus and hands back what was read into its place.
    pub fn transfer_in_place(&mut self, handle: Handle, data: Vec<u8>) -> (res: Result<
        Vec<u8>,
        ErrorCode,
    >)
        ensures
            if old(self).lease.is_live(handle) {
                &&& final(self).lease == old(self).lease
                &&& Observed::handed(
                    old(self).bus,
                    seq![OperationView::TransferInPlace(data@)],
                    final(self).bus,
                )
                &&& is_transfer_in_place_result(old(self).bus.bus(), data@, bytes_view(res))
            } else {
                &&& *final(self) == *old(self)
                &&& res == Err::<Vec<u8>, ErrorCode>(ErrorCode::Other)
            },
            res matches Ok(buf) ==> buf@.len() == data@.len(),
    {
        match self.lease.resolve(handle) {
            Ok(_) => crate::bus::transfer_in_place(&mut self.bus, data),
            Err(cause) => Err(map_lookup_error(cause)),
        }
    }

    /// Runs `operations` on the bus as one transaction and returns the
    /// result of each step, in the order of the descriptors.
    pub fn transaction(&mut self, handle: Handle, operations: Vec<Operation>) -> (res: Result<
        Vec<Vec<u8>>,
        ErrorCode,
    >)
        ensures
            Self::touches(*old(self), handle, descriptors(operations@), *final(self)),
            if old(self).lease.is_live(handle) {
                is_transaction_result(
                    old(self).bus.bus(),
                    descriptors(operations@),
                    outcome_view(res),
                )
            } else {
                res == Err::<Vec<Vec<u8>>, ErrorCode>(ErrorCode::Other)
            },
            match res {
                Ok(results) => {
                    &&& results@.len() == operations@.len()
                    &&& forall|i: int|
                        0 <= i < results@.len() ==> (#[trigger] results@[i])@.len() == reply_len(
                            operations@[i]@,
                        )
                },
                Err(_) => true,
            },
    {
        match self.lease.resolve(handle) {
            Ok(_) => crate::ops::run_transaction(&mut self.bus, operations),
            Err(cause) => Err(map_lookup_error(cause)),
        }
    }

    /// Releases the handle. It is dead from then on; the bus stays with the
    /// host and is not called.
    pub fn drop(&mut self, handle: Handle) -> (res: Result<(), InternalError>)
        ensures
            Self::drop_step(*old(self), handle, *final(self), res),
    {
        match self.lease.release(handle) {
            Ok(_) => Ok(()),
            Err(cause) => Err(InternalError { handle, cause }),
        }
    }

    /// A handle can be dropped once. A second drop is an error, and it
    /// changes nothing.
    pub proof fn lemma_second_drop_fails(
        start: Self,
        handle: Handle,
        between: Self,
        first: Result<(), InternalError>,
        end: Self,
        second: Result<(), InternalError>,
    )
        requires
            Self::drop_step(start, handle, between, first),
            first is Ok,
            Self::drop_step(between, handle, end, second),
        ensures
            second == Err::<(), InternalError>(
                InternalError { handle, cause: LookupError::Stale },
            ),
            end == between,
    {
    }

    /// After a drop no call reaches the bus: whatever the handle, the
    /// context stays as it is.
    pub proof fn lemma_dropped_is_dead(
        self,
        handle: Handle,
        requested: Seq<Descriptor>,
        post: Self,
    )
        requires
            !self.lease.live,
            Self::touches(self, handle, requested, post),
        ensures
            post == self,
    {
    }
}

/// One bus and its handle, for a guest interface with in-place transfers.
pub struct SpiImplementation<T>(pub SpiContext<T>);

impl<T: WasiSpiDevice> SpiImplementation<T> {
    /// The implementation over `bus`, with a live handle for it.
    pub fn new(bus: T) -> (implementation: Self)
        ensures
            implementation.0.bus.bus() == bus,
            implementation.0.bus.seen() == Seq::<Seq<OperationView>>::empty(),
            implementation.0.lease == (Lease {
                handle: Handle { index: 0, generation: 0 },
                live: true,
            }),
    {
        SpiImplementation(SpiContext::new(bus))
    }

    /// Writes `data` to the bus.
    pub fn write(&mut self, handle: Handle, data: Vec<u8>) -> (res: Result<(), ErrorCode>)
        ensures
            SpiContext::touches(
                old(self).0,
                handle,
                seq![Descriptor::Write(data@)],
                final(self).0,
            ),
            if old(self).0.lease.is_live(handle) {
                is_write_result(old(self).0.bus.bus(), data@, res)
            } else {
                res == Err::<(), ErrorCode>(ErrorCode::Other)
            },
    {
        self.0.write(handle, data)
    }

    /// Reads `len` bytes from the bus.
    pub fn read(&mut self, handle: Handle, len: u64) -> (res: Result<Vec<u8>, ErrorCode>)
        ensures
            SpiContext::touches(old(self).0, handle, seq![Descriptor::Read(len)], final(self).0),
            if old(self).0.lease.is_live(handle) {
                is_read_result(old(self).0.bus.bus(), len, bytes_view(res))
            } else {
                res == Err::<Vec<u8>, ErrorCode>(ErrorCode::Other)
            },
            res matches Ok(buf) ==> buf@.len() == len,
            !crate::ops::fits(len) ==> res == Err::<Vec<u8>, ErrorCode>(ErrorCode::Other),
    {
        self.0.read(handle, len)
    }

    /// Writes `data` to the bus and reads as many bytes at the same time.
    pub fn transfer(&mut self, handle: Handle, data: Vec<u8>) -> (res: Result<Vec<u8>, ErrorCode>)
        ensures
            SpiContext::touches(
                old(self).0,
                handle,
                seq![Descriptor::Transfer(data@)],
                final(self).0,
            ),
            if old(self).0.lease.is_live(handle) {
                is_transfer_result(old(self).0.bus.bus(), data@, bytes_view(res))
            } else {
                res == Err::<Vec<u8>, ErrorCode>(ErrorCode::Other)
            },
            res matches Ok(buf) ==> buf@.len() == data@.len(),
    {
        self.0.transfer(handle, data)
    }

    /// Writes `data` to the bus and hands back what was read into its place.
    pub fn transfer_in_place(&mut self, handle: Handle, data: Vec<u8>) -> (res: Result<
        Vec<u8>,
        ErrorCode,
    >)
        ensures
            if old(self).0.lease.is_live(handle) {
                &&& final(self).0.lease == old(self).0.lease
                &&& Observed::handed(
                    old(self).0.bus,
                    seq![OperationView::TransferInPlace(data@)],
                    final(self).0.bus,
                )
                &&& is_transfer_in_place_result(old(self).0.bus.bus(), data@, bytes_view(res))
            } else {
                &&& *final(self) == *old(self)
                &&& res == Err::<Vec<u8>, ErrorCode>(ErrorCode::Other)
            },
            res matches Ok(buf) ==> buf@.len() == data@.len(),
    {
        self.0.transfer_in_place(handle, data)
    }

    /// Releases the handle. It is dead from then on.
    pub fn drop(&mut self, handle: Handle) -> (res: Result<(), InternalError>)
        ensures
            SpiContext::drop_step(old(self).0, handle, final(self).0, res),
    {
        self.0.drop(handle)
    }
}

} // verus!
