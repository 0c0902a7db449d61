//! Simulated buses for running the bridge without hardware.

use vstd::prelude::*;
use embedded_hal::spi::ErrorKind;
use crate::bus::{is_read_result, is_transfer_result, is_write_result};
use crate::device::{
    DriverOperation, OperationView, SpiResource, WasiSpiDevice, operation_views, shape_kept,
};
use crate::error::ErrorCode;
use crate::host::HostState;
use crate::table::Handle;
use crate::ops::{Descriptor, admissible, concluded, fits, is_transaction_result, translated};

verus! {

/// The byte with which [`MockSpiDevice`] fills every buffer it reads into.
pub const MOCK_DEVICE_FILL: u8 = 0xAA;

/// The byte with which [`MockSpi`] fills every buffer it reads into.
pub const MOCK_FILL: u8 = 0x42;

/// `len` copies of `byte`.
pub open spec fn filled(len: nat, byte: u8) -> Seq<u8> {
    Seq::new(len, |i: int| byte)
}

/// `read` with its first bytes replaced by those of `write`, as far as both reach.
pub open spec fn looped_back(read: Seq<u8>, write: Seq<u8>) -> Seq<u8> {
    Seq::new(read.len(), |i: int| if i < write.len() { write[i] } else { read[i] })
}

/// Overwrites every byte of `buf` with `byte`.
pub fn fill(buf: &mut Vec<u8>, byte: u8)
    ensures
        final(buf)@ == filled(old(buf)@.len(), byte),
{
    let n = buf.len();
    let mut i: usize = 0;
    while i < n
        invariant
            i <= n,
            buf@.len() == n,
            forall|j: int| 0 <= j < i ==> buf@[j] == byte,
        decreases n - i,
    {
        buf[i] = byte;
        i += 1;
    }
}

/// Copies `write` over the start of `read`, as far as both reach.
pub fn loop_back(read: &mut Vec<u8>, write: &Vec<u8>)
    ensures
        final(read)@ == looped_back(old(read)@, write@),
{
    let n = if read.len() < write.len() { read.len() } else { write.len() };
    let mut i: usize = 0;
    while i < n
        invariant
            i <= n,
            n <= write@.len(),
            n <= read@.len(),
            read@.len() == old(read)@.len(),
            forall|j: int| 0 <= j < i ==> read@[j] == write@[j],
            forall|j: int| i <= j < read@.len() ==> read@[j] == old(read)@[j],
        decreases n - i,
    {
        read[i] = write[i];
        i += 1;
    }
}

/// What an echoing bus makes of one step: a read yields the byte `byte`
/// over and over, a transfer echoes what is written, and nothing else changes
/// (an in-place transfer leaves in place what it wrote).
pub open spec fn echo_step(op: OperationView, byte: u8) -> OperationView {
    match op {
        OperationView::Read(buf) => OperationView::Read(filled(buf.len(), byte)),
        OperationView::Transfer(read, write) => OperationView::Transfer(
            looped_back(read, write),
            write,
        ),
        other => other,
    }
}

/// What an echoing bus makes of a whole transaction.
pub open spec fn echo_run(ops: Seq<OperationView>, byte: u8) -> Seq<OperationView> {
    Seq::new(ops.len(), |i: int| echo_step(ops[i], byte))
}

/// Does to `op` what an echoing bus does.
pub fn echo(op: &mut DriverOperation, byte: u8)
    ensures
        final(op)@ == echo_step(old(op)@, byte),
{
    match op {
        DriverOperation::Read(buf) => fill(buf, byte),
        DriverOperation::Transfer(read, write) => loop_back(read, write),
        _ => {},
    }
}

/// Does to every step what an echoing bus does, in order.
pub fn echo_all(operations: &mut Vec<DriverOperation>, byte: u8)
    ensures
        operation_views(final(operations)@) == echo_run(operation_views(old(operations)@), byte),
{
    let n = operations.len();
    let mut i: usize = 0;
    while i < n
        invariant
            i <= n,
            operations@.len() == n,
            old(operations)@.len() == n,
            forall|j: int| 0 <= j < i ==> operations@[j]@ == echo_step(old(operations)@[j]@, byte),
            forall|j: int| i <= j < n ==> operations@[j] == old(operations)@[j],
        decreases n - i,
    {
        echo(&mut operations[i], byte);
        i += 1;
    }
}

/// A loopback bus: reads yield [`MOCK_DEVICE_FILL`], transfers echo what was written.
#[derive(Clone, Copy, Debug)]
pub struct MockSpiDevice;

/// The error type of [`MockSpiDevice`]. The loopback bus never fails, so it never makes one.
#[derive(Clone, Copy, Debug)]
pub struct MockSpiError;

impl MockSpiError {
    /// The driver error kind that this error stands for.
    pub fn kind(&self) -> (kind: ErrorKind)
        ensures
            kind == ErrorKind::Other,
    {
        ErrorKind::Other
    }

    /// The error in words.
    pub fn message(&self) -> (text: String)
        ensures
            text@ == "Simulated Mock SPI Error"@,
    {
        "Simulated Mock SPI Error".to_owned()
    }
}

impl WasiSpiDevice for MockSpiDevice {
    open spec fn responds(
        &self,
        before: Seq<OperationView>,
        after: Seq<OperationView>,
        outcome: Result<(), ErrorKind>,
    ) -> bool {
        outcome is Ok && after == echo_run(before, MOCK_DEVICE_FILL)
    }

    fn transaction(&mut self, operations: &mut Vec<DriverOperation>) -> (outcome: Result<
        (),
        ErrorKind,
    >) {
        echo_all(operations, MOCK_DEVICE_FILL);
        Ok(())
    }
}

/// A loopback bus like [`MockSpiDevice`], with [`MOCK_FILL`] for what it reads.
#[derive(Clone, Copy, Debug)]
pub struct MockSpi;

/// The error type of [`MockSpi`]. The bus never fails, so it never makes one.
#[derive(Clone, Copy, Debug)]
pub struct MockError;

impl MockError {
    /// The driver error kind that this error stands for.
    pub fn kind(&self) -> (kind: ErrorKind)
        ensures
            kind == ErrorKind::Other,
    {
        ErrorKind::Other
    }

    /// The error in words.
    pub fn message(&self) -> (text: String)
        ensures
            text@ == "Mock Error"@,
    {
        "Mock Error".to_owned()
    }
}

impl WasiSpiDevice for MockSpi {
    open spec fn responds(
        &self,
        before: Seq<OperationView>,
        after: Seq<OperationView>,
        outcome: Result<(), ErrorKind>,
    ) -> bool {
        outcome is Ok && after == echo_run(before, MOCK_FILL)
    }

    fn transaction(&mut self, operations: &mut Vec<DriverOperation>) -> (outcome: Result<
        (),
        ErrorKind,
    >) {
        echo_all(operations, MOCK_FILL);
        Ok(())
    }
}

/// Whether `device` is an echoing bus that reads `byte`.
pub open spec fn is_echo_bus<D: WasiSpiDevice>(device: D, byte: u8) -> bool {
    forall|before: Seq<OperationView>, after: Seq<OperationView>, outcome: Result<(), ErrorKind>|
        #![trigger device.responds(before, after, outcome)]
        device.responds(before, after, outcome) == (outcome is Ok && after == echo_run(
            before,
            byte,
        ))
}

/// The two mocks are echoing buses, and so is a resource that holds one.
pub proof fn lemma_mocks_echo()
    ensures
        is_echo_bus(MockSpiDevice, MOCK_DEVICE_FILL),
        is_echo_bus(MockSpi, MOCK_FILL),
        is_echo_bus(SpiResource { device: Box::new(MockSpiDevice) }, MOCK_DEVICE_FILL),
        is_echo_bus(SpiResource { device: Box::new(MockSpi) }, MOCK_FILL),
{
}

impl SpiResource {
    /// A resource that holds the loopback bus [`MockSpiDevice`].
    pub fn mock_device() -> (resource: SpiResource)
        ensures
            is_echo_bus(resource, MOCK_DEVICE_FILL),
    {
        SpiResource { device: Box::new(MockSpiDevice) }
    }

    /// A resource that holds the loopback bus [`MockSpi`].
    pub fn mock() -> (resource: SpiResource)
        ensures
            is_echo_bus(resource, MOCK_FILL),
    {
        SpiResource { device: Box::new(MockSpi) }
    }
}

/// A bus that answers as an echoing bus does is one.
pub proof fn lemma_echo_bus_stays<D: WasiSpiDevice>(pre: D, post: D, byte: u8)
    requires
        is_echo_bus(pre, byte),
        crate::device::answers_alike(&pre, &post),
    ensures
        is_echo_bus(post, byte),
{
}

/// What an echoing bus hands back for one descriptor.
pub open spec fn echo_reply(op: Descriptor, byte: u8) -> Seq<u8> {
    match op {
        Descriptor::Read(len) => filled(len as nat, byte),
        Descriptor::Transfer(data) => data,
        _ => Seq::empty(),
    }
}

/// What an echoing bus hands back for a transaction: one reply for each
/// descriptor, in order.
pub open spec fn echo_replies(requested: Seq<Descriptor>, byte: u8) -> Seq<Seq<u8>> {
    Seq::new(requested.len(), |i: int| echo_reply(requested[i], byte))
}

/// On an echoing bus every transaction succeeds, and its results are the
/// replies to its descriptors in the order of the descriptors.
pub proof fn lemma_echo_transaction<D: WasiSpiDevice>(
    device: D,
    byte: u8,
    requested: Seq<Descriptor>,
    result: Result<Seq<Seq<u8>>, ErrorCode>,
)
    requires
        is_echo_bus(device, byte),
        admissible(requested),
        is_transaction_result(device, requested, result),
    ensures
        result == Ok::<Seq<Seq<u8>>, ErrorCode>(echo_replies(requested, byte)),
{
    let (after, outcome) = choose|after: Seq<OperationView>, outcome: Result<(), ErrorKind>|
        {
            &&& shape_kept(translated(requested), after)
            &&& #[trigger] device.responds(translated(requested), after, outcome)
            &&& result == concluded(outcome, after)
        };
    assert(result->Ok_0 =~= echo_replies(requested, byte)) by {
        assert forall|i: int| 0 <= i < requested.len() implies #[trigger] result->Ok_0[i]
            == echo_reply(requested[i], byte) by {
            if let Descriptor::Transfer(data) = requested[i] {
                assert(looped_back(crate::ops::zeros(data.len()), data) =~= data);
            }
        }
    }
}

/// On an echoing bus a transaction without steps succeeds without results.
pub proof fn lemma_echo_empty_transaction<D: WasiSpiDevice>(
    device: D,
    byte: u8,
    result: Result<Seq<Seq<u8>>, ErrorCode>,
)
    requires
        is_echo_bus(device, byte),
        is_transaction_result(device, Seq::<Descriptor>::empty(), result),
    ensures
        result == Ok::<Seq<Seq<u8>>, ErrorCode>(Seq::empty()),
{
    lemma_echo_transaction(device, byte, Seq::empty(), result);
    assert(echo_replies(Seq::empty(), byte) =~= Seq::<Seq<u8>>::empty());
}

/// On an echoing bus a read of `len` bytes yields `len` times its byte.
pub proof fn lemma_echo_read<D: WasiSpiDevice>(
    device: D,
    byte: u8,
    len: u64,
    result: Result<Seq<u8>, ErrorCode>,
)
    requires
        is_echo_bus(device, byte),
        fits(len),
        is_read_result(device, len, result),
    ensures
        result == Ok::<Seq<u8>, ErrorCode>(filled(len as nat, byte)),
{
    let requested = seq![Descriptor::Read(len)];
    lemma_echo_transaction(device, byte, requested, crate::bus::single(result));
    assert(crate::bus::single(result)->Ok_0[0] == result->Ok_0);
}

/// On an echoing bus every write succeeds.
pub proof fn lemma_echo_write<D: WasiSpiDevice>(
    device: D,
    byte: u8,
    data: Seq<u8>,
    result: Result<(), ErrorCode>,
)
    requires
        is_echo_bus(device, byte),
        is_write_result(device, data, result),
    ensures
        result is Ok,
{
    lemma_echo_transaction(
        device,
        byte,
        seq![Descriptor::Write(data)],
        crate::bus::single_unit(result),
    );
}

/// On an echoing bus a transfer hands back the bytes that were written.
pub proof fn lemma_echo_transfer<D: WasiSpiDevice>(
    device: D,
    byte: u8,
    data: Seq<u8>,
    result: Result<Seq<u8>, ErrorCode>,
)
    requires
        is_echo_bus(device, byte),
        is_transfer_result(device, data, result),
    ensures
        result == Ok::<Seq<u8>, ErrorCode>(data),
{
    let requested = seq![Descriptor::Transfer(data)];
    lemma_echo_transaction(device, byte, requested, crate::bus::single(result));
    assert(crate::bus::single(result)->Ok_0[0] == result->Ok_0);
}

/// Behind a live handle of a host, an echoing bus answers a read with its
/// byte, and is an echoing bus for the next call.
pub proof fn lemma_host_echo_read<D: WasiSpiDevice>(
    pre: HostState<D>,
    handle: Handle,
    len: u64,
    post: HostState<D>,
    result: Result<Seq<u8>, ErrorCode>,
    byte: u8,
)
    requires
        pre.is_live(handle),
        is_echo_bus(pre.table@[handle].bus(), byte),
        fits(len),
        HostState::read_step(pre, handle, len, post, result),
    ensures
        result == Ok::<Seq<u8>, ErrorCode>(filled(len as nat, byte)),
        post.is_live(handle),
        is_echo_bus(post.table@[handle].bus(), byte),
{
    lemma_echo_read(pre.table@[handle].bus(), byte, len, result);
}

/// Behind a live handle of a host, an echoing bus takes every write, and
/// is an echoing bus for the next call.
pub proof fn lemma_host_echo_write<D: WasiSpiDevice>(
    pre: HostState<D>,
    handle: Handle,
    data: Seq<u8>,
    post: HostState<D>,
    result: Result<(), ErrorCode>,
    byte: u8,
)
    requires
        pre.is_live(handle),
        is_echo_bus(pre.table@[handle].bus(), byte),
        HostState::write_step(pre, handle, data, post, result),
    ensures
        result is Ok,
        post.is_live(handle),
        is_echo_bus(post.table@[handle].bus(), byte),
{
    lemma_echo_write(pre.table@[handle].bus(), byte, data, result);
}

/// Behind a live handle of a host, an echoing bus hands back what a
/// transfer wrote, and is an echoing bus for the next call.
pub proof fn lemma_host_echo_transfer<D: WasiSpiDevice>(
    pre: HostState<D>,
    handle: Handle,
    data: Seq<u8>,
    post: HostState<D>,
    result: Result<Seq<u8>, ErrorCode>,
    byte: u8,
)
    requires
        pre.is_live(handle),
        is_echo_bus(pre.table@[handle].bus(), byte),
        HostState::transfer_step(pre, handle, data, post, result),
    ensures
        result == Ok::<Seq<u8>, ErrorCode>(data),
        post.is_live(handle),
        is_echo_bus(post.table@[handle].bus(), byte),
{
    lemma_echo_transfer(pre.table@[handle].bus(), byte, data, result);
}

/// Behind a live handle of a host, an echoing bus answers a transaction
/// with the replies to its descriptors, in their order, and is an echoing
/// bus for the next call.
pub proof fn lemma_host_echo_transaction<D: WasiSpiDevice>(
    pre: HostState<D>,
    handle: Handle,
    requested: Seq<Descriptor>,
    post: HostState<D>,
    result: Result<Seq<Seq<u8>>, ErrorCode>,
    byte: u8,
)
    requires
        pre.is_live(handle),
        is_echo_bus(pre.table@[handle].bus(), byte),
        admissible(requested),
        HostState::transaction_step(pre, handle, requested, post, result),
    ensures
        result == Ok::<Seq<Seq<u8>>, ErrorCode>(echo_replies(requested, byte)),
        post.is_live(handle),
        is_echo_bus(post.table@[handle].bus(), byte),
{
    lemma_echo_transaction(pre.table@[handle].bus(), byte, requested, result);
}

} // verus!
