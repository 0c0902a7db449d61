//! The dispatch surface: the calls that a guest makes with a handle.

use vstd::prelude::*;
use crate::bus::{bytes_view, is_read_result, is_transfer_result, is_write_result};
use crate::device::{Observed, WasiSpiDevice};
use crate::error::ErrorCode;
use crate::ops::{
    Descriptor, Operation, descriptors, is_transaction_result, is_transaction_trace, outcome_view,
    reply_len,
};
use crate::table::{GuestHandles, Handle, LookupError, ResourceTable};

verus! {

/// A call that broke the handle protocol. The guest never sees this value:
/// it tells the host that the guest, or the host itself, is at fault.
#[derive(Clone, Copy, Debug, PartialEq, Eq, Structural)]
pub struct InternalError {
    /// The handle that did not resolve.
    pub handle: Handle,
    /// Why it did not.
    pub cause: LookupError,
}

/// The code under which a failed lookup reaches the guest. Whatever the
/// cause, the guest sees `Other`; that no bus was involved shows in the
/// [`LookupError`] alone, which stays on the host's side.
pub fn map_lookup_error(cause: LookupError) -> (code: ErrorCode)
    ensures
        code == ErrorCode::Other,
{
    match cause {
        LookupError::Unknown => ErrorCode::Other,
        LookupError::Stale => ErrorCode::Other,
    }
}

/// The state of one host: the devices that it has opened for its guest.
pub struct HostState<D> {
    pub table: ResourceTable<Observed<D>>,
}

impl<D: WasiSpiDevice> HostState<D> {
    /// The table is well formed.
    pub open spec fn wf(&self) -> bool {
        self.table.wf()
    }

    /// Whether `handle` stands for a device.
    pub open spec fn is_live(&self, handle: Handle) -> bool {
        self.table@.contains_key(handle)
    }

    /// Whether `handle` was dropped.
    pub open spec fn is_dropped(&self, handle: Handle) -> bool {
        self.table.released().contains(handle)
    }

    /// How a call on `handle` with the steps `requested` may change the
    /// host: it releases nothing, and only the device behind `handle` is
    /// touched, by one call that hands it the translated steps. Where the
    /// handle is dead, or a read asks for a length that no buffer can have,
    /// nothing changes at all.
    pub open spec fn touches_only(
        pre: Self,
        handle: Handle,
        requested: Seq<Descriptor>,
        post: Self,
    ) -> bool {
        &&& post.wf()
        &&& post.table.released() == pre.table.released()
        &&& if pre.is_live(handle) {
            &&& post.is_live(handle)
            &&& post.table@ == pre.table@.insert(handle, post.table@[handle])
            &&& is_transaction_trace(pre.table@[handle], requested, post.table@[handle])
        } else {
            post == pre
        }
    }

    /// What `read` does: on a dead handle it fails with `Other` and leaves
    /// the bus alone; on a live one the device behind it answers.
    pub open spec fn read_step(
        pre: Self,
        handle: Handle,
        len: u64,
        post: Self,
        res: Result<Seq<u8>, ErrorCode>,
    ) -> bool {
        &&& Self::touches_only(pre, handle, seq![Descriptor::Read(len)], post)
        &&& if pre.is_live(handle) {
            is_read_result(pre.table@[handle].bus(), len, res)
        } else {
            res == Err::<Seq<u8>, ErrorCode>(ErrorCode::Other)
        }
    }

    /// What `write` does: as `read_step`, for a write of `data`.
    pub open spec fn write_step(
        pre: Self,
        handle: Handle,
        data: Seq<u8>,
        post: Self,
        res: Result<(), ErrorCode>,
    ) -> bool {
        &&& Self::touches_only(pre, handle, seq![Descriptor::Write(data)], post)
        &&& if pre.is_live(handle) {
            is_write_result(pre.table@[handle].bus(), data, res)
        } else {
            res == Err::<(), ErrorCode>(ErrorCode::Other)
        }
    }

    /// What `transfer` does: as `read_step`, for a transfer of `data`.
    pub open spec fn transfer_step(
        pre: Self,
        handle: Handle,
        data: Seq<u8>,
        post: Self,
        res: Result<Seq<u8>, ErrorCode>,
    ) -> bool {
        &&& Self::touches_only(pre, handle, seq![Descriptor::Transfer(data)], post)
        &&& if pre.is_live(handle) {
            is_transfer_result(pre.table@[handle].bus(), data, res)
        } else {
            res == Err::<Seq<u8>, ErrorCode>(ErrorCode::Other)
        }
    }

    /// What `transaction` does: as `read_step`, for the steps `requested`.
    pub open spec fn transaction_step(
        pre: Self,
        handle: Handle,
        requested: Seq<Descriptor>,
        post: Self,
        res: Result<Seq<Seq<u8>>, ErrorCode>,
    ) -> bool {
        &&& Self::touches_only(pre, handle, requested, post)
        &&& if pre.is_live(handle) {
            is_transaction_result(pre.table@[handle].bus(), requested, res)
        } else {
            res == Err::<Seq<Seq<u8>>, ErrorCode>(ErrorCode::Other)
        }
    }

    /// What `drop` does: a live handle is released for good and its device
    /// leaves the table; a dead one is an error that changes nothing.
    pub open spec fn drop_step(
        pre: Self,
        handle: Handle,
        post: Self,
        res: Result<(), InternalError>,
    ) -> bool {
        &&& post.wf()
        &&& if pre.is_live(handle) {
            &&& res is Ok
            &&& post.table@ == pre.table@.remove(handle)
            &&& post.table.released() == pre.table.released().insert(handle)
        } else {
            &&& res == Err::<(), InternalError>(
                InternalError { handle, cause: pre.table.lookup_error(handle) },
            )
            &&& post == pre
        }
    }

    /// What `attach` does: it issues a handle that was neither live nor
    /// dropped before, and the device, not yet called, stands behind it.
    pub open spec fn attach_step(pre: Self, device: D, post: Self, handle: Handle) -> bool {
        &&& post.wf()
        &&& !pre.is_live(handle)
        &&& !pre.is_dropped(handle)
        &&& post.is_live(handle)
        &&& post.table@ == pre.table@.insert(handle, post.table@[handle])
        &&& post.table@[handle].bus() == device
        &&& post.table@[handle].seen() == Seq::<Seq<crate::device::OperationView>>::empty()
        &&& post.table.released() == pre.table.released()
    }

    /// Whether one call may lead from `pre` to `post`: a read, write,
    /// transfer or transaction on some handle, a drop, or an `attach`.
    pub open spec fn follows(pre: Self, post: Self) -> bool {
        ||| exists|handle: Handle, requested: Seq<Descriptor>|
            Self::touches_only(pre, handle, requested, post)
        ||| exists|handle: Handle, res: Result<(), InternalError>|
            Self::drop_step(pre, handle, post, res)
        ||| exists|device: D, handle: Handle| Self::attach_step(pre, device, post, handle)
    }

    /// A host without devices.
    pub fn new() -> (host: Self)
        ensures
            host.wf(),
            host.table@ == Map::<Handle, Observed<D>>::empty(),
            host.table.released() == Set::<Handle>::empty(),
    {
        HostState { table: ResourceTable::new() }
    }

    /// Hands `device` over to the host and issues the handle under which the
    /// guest will reach it.
    pub fn attach(&mut self, device: D) -> (handle: Handle)
        requires
            old(self).wf(),
        ensures
            Self::attach_step(*old(self), device, *final(self), handle),
    {
        self.table.insert(Observed::new(device))
    }

    /// Reads `len` bytes from the device behind `handle`.
    pub fn read(&mut self, handle: Handle, len: u64) -> (res: Result<Vec<u8>, ErrorCode>)
        requires
            old(self).wf(),
        ensures
            Self::read_step(*old(self), handle, len, *final(self), bytes_view(res)),
            res matches Ok(buf) ==> buf@.len() == len,
            !crate::ops::fits(len) ==> res == Err::<Vec<u8>, ErrorCode>(ErrorCode::Other),
    {
        match self.table.borrow_mut(handle) {
            Ok(device) => crate::bus::read(device, len),
            Err(cause) => Err(map_lookup_error(cause)),
        }
    }

    /// Writes `data` to the device behind `handle`.
    pub fn write(&mut self, handle: Handle, data: Vec<u8>) -> (res: Result<(), ErrorCode>)
        requires
            old(self).wf(),
        ensures
            Self::write_step(*old(self), handle, data@, *final(self), res),
    {
        match self.table.borrow_mut(handle) {
            Ok(device) => crate::bus::write(device, data),
            Err(cause) => Err(map_lookup_error(cause)),
        }
    }

    /// Writes `data` to the device behind `handle` and reads as many bytes
    /// at the same time.
    pub fn transfer(&mut self, handle: Handle, data: Vec<u8>) -> (res: Result<Vec<u8>, ErrorCode>)
        requires
            old(self).wf(),
        ensures
            Self::transfer_step(*old(self), handle, data@, *final(self), bytes_view(res)),
            res matches Ok(buf) ==> buf@.len() == data@.len(),
    {
        match self.table.borrow_mut(handle) {
            Ok(device) => crate::bus::transfer(device, data),
            Err(cause) => Err(map_lookup_error(cause)),
        }
    }

    /// Runs `operations` on the device behind `handle` as one transaction
    /// and returns the result of each step, in the order of the descriptors.
    pub fn transaction(&mut self, handle: Handle, operations: Vec<Operation>) -> (res: Result<
        Vec<Vec<u8>>,
        ErrorCode,
    >)
        requires
            old(self).wf(),
        ensures
            Self::transaction_step(
                *old(self),
                handle,
                descriptors(operations@),
                *final(self),
                outcome_view(res),
            ),
            match res {
                Ok(results) => {
                    &&& results@.len() == operations@.len()
                    &&& forall|i: int|
                        0 <= i < results@.len() ==> (#[trigger] results@[i])@.len() == reply_len(
                            operations@[i]@,
                        )
                },
                Err(_) => true,
            },
    {
        match self.table.borrow_mut(handle) {
            Ok(device) => crate::ops::run_transaction(device, operations),
            Err(cause) => Err(map_lookup_error(cause)),
        }
    }

    /// Releases the device behind `handle`. The handle is dead from then on.
    pub fn drop(&mut self, handle: Handle) -> (res: Result<(), InternalError>)
        requires
            old(self).wf(),
        ensures
            Self::drop_step(*old(self), handle, *final(self), res),
    {
        match self.table.remove(handle) {
            Ok(_) => Ok(()),
            Err(cause) => Err(InternalError { handle, cause }),
        }
    }

    /// A handle can be dropped once. A second drop is an error, and it
    /// changes nothing.
    pub proof fn lemma_second_drop_fails(
        start: Self,
        handle: Handle,
        between: Self,
        first: Result<(), InternalError>,
        end: Self,
        second: Result<(), InternalError>,
    )
        requires
            Self::drop_step(start, handle, between, first),
            first is Ok,
            Self::drop_step(between, handle, end, second),
        ensures
            second == Err::<(), InternalError>(
                InternalError { handle, cause: LookupError::Stale },
            ),
            end == between,
    {
        between.table.lemma_released_is_dead(handle);
    }

    /// No call revives a handle: one that was dropped is dropped, and dead,
    /// after whatever call comes next, also where its slot holds a new device.
    pub proof fn lemma_dropped_stays_dropped(pre: Self, post: Self, handle: Handle)
        requires
            pre.is_dropped(handle),
            Self::follows(pre, post),
        ensures
            post.is_dropped(handle),
            !post.is_live(handle),
    {
        post.table.lemma_released_is_dead(handle);
    }

    /// Every call on a handle that is not live is refused and changes
    /// nothing: the four calls to the bus with `Other`, a drop with an
    /// internal error. A dropped handle is not live.
    pub proof fn lemma_dead_is_refused(self, handle: Handle)
        requires
            !self.is_live(handle),
        ensures
            forall|post: Self, len: u64, res: Result<Seq<u8>, ErrorCode>| #[trigger]
                Self::read_step(self, handle, len, post, res) ==> res == Err::<
                    Seq<u8>,
                    ErrorCode,
                >(ErrorCode::Other) && post == self,
            forall|post: Self, data: Seq<u8>, res: Result<(), ErrorCode>| #[trigger]
                Self::write_step(self, handle, data, post, res) ==> res == Err::<(), ErrorCode>(
                    ErrorCode::Other,
                ) && post == self,
            forall|post: Self, data: Seq<u8>, res: Result<Seq<u8>, ErrorCode>| #[trigger]
                Self::transfer_step(self, handle, data, post, res) ==> res == Err::<
                    Seq<u8>,
                    ErrorCode,
                >(ErrorCode::Other) && post == self,
            forall|post: Self, requested: Seq<Descriptor>, res: Result<Seq<Seq<u8>>, ErrorCode>|
                #[trigger] Self::transaction_step(self, handle, requested, post, res) ==> res
                    == Err::<Seq<Seq<u8>>, ErrorCode>(ErrorCode::Other) && post == self,
            forall|post: Self, res: Result<(), InternalError>| #[trigger]
                Self::drop_step(self, handle, post, res) ==> res is Err && post == self,
    {
    }

    /// A dropped handle is not live.
    pub proof fn lemma_dropped_is_dead(self, handle: Handle)
        requires
            self.is_dropped(handle),
        ensures
            !self.is_live(handle),
    {
        self.table.lemma_released_is_dead(handle);
    }
}

/// A host as its guest sees it: the devices, and the numbers under which
/// the guest names them. Each call takes the guest's number, resolves it to
/// the handle and goes on as [`HostState`] does; a number that was never
/// given out stands for the handle that is never issued.
pub struct GuestHost<D> {
    pub host: HostState<D>,
    pub names: GuestHandles,
}

impl<D: WasiSpiDevice> GuestHost<D> {
    /// The table is well formed.
    pub open spec fn wf(&self) -> bool {
        self.host.wf()
    }

    /// The handle that the number `rep` stands for.
    pub open spec fn handle_of(&self, rep: u32) -> Handle {
        self.names.handle_of(rep)
    }

    /// A host without devices; no number is given out.
    pub fn new() -> (guest_host: Self)
        ensures
            guest_host.wf(),
            guest_host.host.table@ == Map::<Handle, Observed<D>>::empty(),
            guest_host.host.table.released() == Set::<Handle>::empty(),
            guest_host.names@ == Seq::<Handle>::empty(),
    {
        GuestHost { host: HostState::new(), names: GuestHandles::new() }
    }

    /// Hands `device` over to the host and gives its handle the next
    /// number. Where no number is left the device is handed back and
    /// nothing changes.
    pub fn attach(&mut self, device: D) -> (res: Result<u32, D>)
        requires
            old(self).wf(),
        ensures
            final(self).wf(),
            match res {
                Ok(rep) => {
                    &&& rep == old(self).names@.len()
                    &&& final(self).names@ == old(self).names@.push(final(self).handle_of(rep))
                    &&& HostState::attach_step(
                        old(self).host,
                        device,
                        final(self).host,
                        final(self).handle_of(rep),
                    )
                },
                Err(back) => {
                    &&& old(self).names@.len() > u32::MAX
                    &&& back == device
                    &&& *final(self) == *old(self)
                },
            },
    {
        if self.names.is_full() {
            return Err(device);
        }
        let handle = self.host.attach(device);
        let rep = self.names.issue(handle);
        Ok(rep.unwrap())
    }

    /// Reads `len` bytes from the device that the guest names `rep`.
    pub fn read(&mut self, rep: u32, len: u64) -> (res: Result<Vec<u8>, ErrorCode>)
        requires
            old(self).wf(),
        ensures
            final(self).names == old(self).names,
            HostState::read_step(
                old(self).host,
                old(self).handle_of(rep),
                len,
                final(self).host,
                bytes_view(res),
            ),
            res matches Ok(buf) ==> buf@.len() == len,
            !crate::ops::fits(len) ==> res == Err::<Vec<u8>, ErrorCode>(ErrorCode::Other),
    {
        let handle = self.names.resolve(rep);
        self.host.read(handle, len)
    }

    /// Writes `data` to the device that the guest names `rep`.
    pub fn write(&mut self, rep: u32, data: Vec<u8>) -> (res: Result<(), ErrorCode>)
        requires
            old(self).wf(),
        ensures
            final(self).names == old(self).names,
            HostState::write_step(
                old(self).host,
                old(self).handle_of(rep),
                data@,
                final(self).host,
                res,
            ),
    {
        let handle = self.names.resolve(rep);
        self.host.write(handle, data)
    }

    /// Writes `data` to the device that the guest names `rep` and reads as
    /// many bytes at the same time.
    pub fn transfer(&mut self, rep: u32, data: Vec<u8>) -> (res: Result<Vec<u8>, ErrorCode>)
        requires
            old(self).wf(),
        ensures
            final(self).names == old(self).names,
            HostState::transfer_step(
                old(self).host,
                old(self).handle_of(rep),
                data@,
                final(self).host,
                bytes_view(res),
            ),
            res matches Ok(buf) ==> buf@.len() == data@.len(),
    {
        let handle = self.names.resolve(rep);
        self.host.transfer(handle, data)
    }

    /// Runs `operations` on the device that the guest names `rep`.
    pub fn transaction(&mut self, rep: u32, operations: Vec<Operation>) -> (res: Result<
        Vec<Vec<u8>>,
        ErrorCode,
    >)
        requires
            old(self).wf(),
        ensures
            final(self).names == old(self).names,
            HostState::transaction_step(
                old(self).host,
                old(self).handle_of(rep),
                descriptors(operations@),
                final(self).host,
                outcome_view(res),
            ),
    {
        let handle = self.names.resolve(rep);
        self.host.transaction(handle, operations)
    }

    /// Releases the device that the guest names `rep`. The number is dead
    /// from then on.
    pub fn drop(&mut self, rep: u32) -> (res: Result<(), InternalError>)
        requires
            old(self).wf(),
        ensures
            final(self).names == old(self).names,
            HostState::drop_step(
                old(self).host,
                old(self).handle_of(rep),
                final(self).host,
                res,
            ),
    {
        let handle = self.names.resolve(rep);
        self.host.drop(handle)
    }

    /// A number can be dropped once. A second drop of it is an error, and
    /// it changes nothing.
    pub proof fn lemma_second_drop_fails(
        start: Self,
        rep: u32,
        between: Self,
        first: Result<(), InternalError>,
        end: Self,
        second: Result<(), InternalError>,
    )
        requires
            between.names == start.names,
            HostState::drop_step(start.host, start.handle_of(rep), between.host, first),
            first is Ok,
            HostState::drop_step(between.host, between.handle_of(rep), end.host, second),
        ensures
            second is Err,
            end.host == between.host,
    {
        HostState::lemma_second_drop_fails(
            start.host,
            start.handle_of(rep),
            between.host,
            first,
            end.host,
            second,
        );
    }

    /// A number that was never given out reaches no device.
    pub proof fn lemma_unknown_number_is_dead(self, rep: u32)
        requires
            self.wf(),
            rep >= self.names@.len(),
        ensures
            !self.host.is_live(self.handle_of(rep)),
    {
        self.host.table.lemma_never_is_unknown();
    }
}

} // verus!
