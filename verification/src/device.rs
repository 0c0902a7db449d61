//! The bus driver interface: what the bridge asks of one SPI bus.

use vstd::prelude::*;
use embedded_hal::spi::ErrorKind;

verus! {

/// One step of a bus transaction, bound to the buffers it works on.
#[derive(Debug)]
pub enum DriverOperation {
    /// Read into the buffer.
    Read(Vec<u8>),
    /// Write the buffer out.
    Write(Vec<u8>),
    /// Read into the first buffer while writing the second.
    Transfer(Vec<u8>, Vec<u8>),
    /// Write the buffer out while reading into it.
    TransferInPlace(Vec<u8>),
    /// Wait for at least this many nanoseconds.
    DelayNs(u32),
}

/// The mathematical value of a [`DriverOperation`].
pub ghost enum OperationView {
    Read(Seq<u8>),
    Write(Seq<u8>),
    Transfer(Seq<u8>, Seq<u8>),
    TransferInPlace(Seq<u8>),
    DelayNs(u32),
}

impl View for DriverOperation {
    type V = OperationView;

    open spec fn view(&self) -> OperationView {
        match *self {
            DriverOperation::Read(buf) => OperationView::Read(buf@),
            DriverOperation::Write(buf) => OperationView::Write(buf@),
            DriverOperation::Transfer(read, write) => OperationView::Transfer(read@, write@),
            DriverOperation::TransferInPlace(buf) => OperationView::TransferInPlace(buf@),
            DriverOperation::DelayNs(ns) => OperationView::DelayNs(ns),
        }
    }
}

/// The values of a list of driver operations, in order.
pub open spec fn operation_views(ops: Seq<DriverOperation>) -> Seq<OperationView> {
    Seq::new(ops.len(), |i: int| ops[i]@)
}

/// A bus may only fill the buffers it reads into: the kind of the step, the
/// length of every buffer, the bytes to write and the delay stay as they were.
pub open spec fn same_shape(before: OperationView, after: OperationView) -> bool {
    match (before, after) {
        (OperationView::Read(b), OperationView::Read(a)) => a.len() == b.len(),
        (OperationView::Write(b), OperationView::Write(a)) => a == b,
        (OperationView::Transfer(br, bw), OperationView::Transfer(ar, aw)) => {
            ar.len() == br.len() && aw == bw
        },
        (OperationView::TransferInPlace(b), OperationView::TransferInPlace(a)) => {
            a.len() == b.len()
        },
        (OperationView::DelayNs(b), OperationView::DelayNs(a)) => a == b,
        _ => false,
    }
}

/// [`same_shape`], step by step over a whole transaction.
pub open spec fn shape_kept(before: Seq<OperationView>, after: Seq<OperationView>) -> bool {
    &&& after.len() == before.len()
    &&& forall|i: int| 0 <= i < before.len() ==> same_shape(before[i], #[trigger] after[i])
}

/// Whether two buses answer every transaction in the same way.
pub open spec fn answers_alike<D: WasiSpiDevice + ?Sized>(a: &D, b: &D) -> bool {
    forall|before: Seq<OperationView>, after: Seq<OperationView>, outcome: Result<(), ErrorKind>|
        #![trigger b.responds(before, after, outcome)]
        a.responds(before, after, outcome) == b.responds(before, after, outcome)
}

/// One SPI bus, real or simulated, that runs transactions.
///
/// A bus defines `transaction`; `read`, `write` and `transfer` are
/// transactions of one step. A bus that is implemented elsewhere owes what
/// `transaction` ensures here: of the steps it is handed it changes nothing
/// but the bytes of the buffers to read into, and it answers later
/// transactions by the same rule as this one.
pub trait WasiSpiDevice: Send + Sync {
    /// Whether this bus, given the steps `before`, may leave them as `after`
    /// and report `outcome`. Of a bus that says nothing here, nothing is
    /// known: it may fail at any time and read whatever bytes.
    open spec fn responds(
        &self,
        before: Seq<OperationView>,
        after: Seq<OperationView>,
        outcome: Result<(), ErrorKind>,
    ) -> bool {
        true
    }

    /// Runs the steps in order under one continuous chip-select period.
    fn transaction(&mut self, operations: &mut Vec<DriverOperation>) -> (outcome: Result<
        (),
        ErrorKind,
    >)
        ensures
            shape_kept(operation_views(old(operations)@), operation_views(final(operations)@)),
            old(self).responds(
                operation_views(old(operations)@),
                operation_views(final(operations)@),
                outcome,
            ),
            forall|b: Seq<OperationView>, a: Seq<OperationView>, o: Result<(), ErrorKind>|
                #![trigger final(self).responds(b, a, o)]
                final(self).responds(b, a, o) == old(self).responds(b, a, o),
    ;

    /// Fills `words` from the bus.
    fn read(&mut self, words: &mut Vec<u8>) -> (outcome: Result<(), ErrorKind>)
        ensures
            final(words)@.len() == old(words)@.len(),
            old(self).responds(
                seq![OperationView::Read(old(words)@)],
                seq![OperationView::Read(final(words)@)],
                outcome,
            ),
            forall|b: Seq<OperationView>, a: Seq<OperationView>, o: Result<(), ErrorKind>|
                #![trigger final(self).responds(b, a, o)]
                final(self).responds(b, a, o) == old(self).responds(b, a, o),
    {
        let mut buf: Vec<u8> = Vec::new();
        core::mem::swap(words, &mut buf);
        let mut ops: Vec<DriverOperation> = Vec::with_capacity(1);
        ops.push(DriverOperation::Read(buf));
        let ghost before = operation_views(ops@);
        let outcome = self.transaction(&mut ops);
        let ghost after = operation_views(ops@);
        assert(same_shape(before[0], after[0]));
        if let Some(DriverOperation::Read(filled)) = ops.pop() {
            *words = filled;
        }
        assert(before =~= seq![OperationView::Read(old(words)@)]);
        assert(after =~= seq![OperationView::Read(words@)]);
        outcome
    }

    /// Sends `words` to the bus.
    fn write(&mut self, words: Vec<u8>) -> (outcome: Result<(), ErrorKind>)
        ensures
            old(self).responds(
                seq![OperationView::Write(words@)],
                seq![OperationView::Write(words@)],
                outcome,
            ),
            forall|b: Seq<OperationView>, a: Seq<OperationView>, o: Result<(), ErrorKind>|
                #![trigger final(self).responds(b, a, o)]
                final(self).responds(b, a, o) == old(self).responds(b, a, o),
    {
        let mut ops: Vec<DriverOperation> = Vec::with_capacity(1);
        ops.push(DriverOperation::Write(words));
        let ghost before = operation_views(ops@);
        let outcome = self.transaction(&mut ops);
        let ghost after = operation_views(ops@);
        assert(before =~= seq![OperationView::Write(words@)]);
        assert(after =~= seq![OperationView::Write(words@)]);
        outcome
    }

    /// Sends `write` to the bus and fills `read` at the same time.
    fn transfer(&mut self, read: &mut Vec<u8>, write: Vec<u8>) -> (outcome: Result<
        (),
        ErrorKind,
    >)
        ensures
            final(read)@.len() == old(read)@.len(),
            old(self).responds(
                seq![OperationView::Transfer(old(read)@, write@)],
                seq![OperationView::Transfer(final(read)@, write@)],
                outcome,
            ),
            forall|b: Seq<OperationView>, a: Seq<OperationView>, o: Result<(), ErrorKind>|
                #![trigger final(self).responds(b, a, o)]
                final(self).responds(b, a, o) == old(self).responds(b, a, o),
    {
        let mut buf: Vec<u8> = Vec::new();
        core::mem::swap(read, &mut buf);
        let mut ops: Vec<DriverOperation> = Vec::with_capacity(1);
        ops.push(DriverOperation::Transfer(buf, write));
        let ghost before = operation_views(ops@);
        let outcome = self.transaction(&mut ops);
        let ghost after = operation_views(ops@);
        assert(same_shape(before[0], after[0]));
        if let Some(DriverOperation::Transfer(filled, _)) = ops.pop() {
            *read = filled;
        }
        assert(before =~= seq![OperationView::Transfer(old(read)@, write@)]);
        assert(after =~= seq![OperationView::Transfer(read@, write@)]);
        outcome
    }

    /// Sends `words` to the bus and fills them with what is read meanwhile.
    fn transfer_in_place(&mut self, words: &mut Vec<u8>) -> (outcome: Result<(), ErrorKind>)
        ensures
            final(words)@.len() == old(words)@.len(),
            old(self).responds(
                seq![OperationView::TransferInPlace(old(words)@)],
                seq![OperationView::TransferInPlace(final(words)@)],
                outcome,
            ),
            forall|b: Seq<OperationView>, a: Seq<OperationView>, o: Result<(), ErrorKind>|
                #![trigger final(self).responds(b, a, o)]
                final(self).responds(b, a, o) == old(self).responds(b, a, o),
    {
        let mut buf: Vec<u8> = Vec::new();
        core::mem::swap(words, &mut buf);
        let mut ops: Vec<DriverOperation> = Vec::with_capacity(1);
        ops.push(DriverOperation::TransferInPlace(buf));
        let ghost before = operation_views(ops@);
        let outcome = self.transaction(&mut ops);
        let ghost after = operation_views(ops@);
        assert(same_shape(before[0], after[0]));
        if let Some(DriverOperation::TransferInPlace(filled)) = ops.pop() {
            *words = filled;
        }
        assert(before =~= seq![OperationView::TransferInPlace(old(words)@)]);
        assert(after =~= seq![OperationView::TransferInPlace(words@)]);
        outcome
    }
}

/// A device resource: one bus of whatever kind, as the table owns it.
pub struct SpiResource {
    pub device: Box<dyn WasiSpiDevice>,
}

impl WasiSpiDevice for SpiResource {
    /// The resource answers as the bus in it does.
    open spec fn responds(
        &self,
        before: Seq<OperationView>,
        after: Seq<OperationView>,
        outcome: Result<(), ErrorKind>,
    ) -> bool {
        self.device.responds(before, after, outcome)
    }

    fn transaction(&mut self, operations: &mut Vec<DriverOperation>) -> (outcome: Result<
        (),
        ErrorKind,
    >) {
        self.device.transaction(operations)
    }

    fn read(&mut self, words: &mut Vec<u8>) -> (outcome: Result<(), ErrorKind>) {
        self.device.read(words)
    }

    fn write(&mut self, words: Vec<u8>) -> (outcome: Result<(), ErrorKind>) {
        self.device.write(words)
    }

    fn transfer(&mut self, read: &mut Vec<u8>, write: Vec<u8>) -> (outcome: Result<
        (),
        ErrorKind,
    >) {
        self.device.transfer(read, write)
    }

    fn transfer_in_place(&mut self, words: &mut Vec<u8>) -> (outcome: Result<(), ErrorKind>) {
        self.device.transfer_in_place(words)
    }
}

/// A bus together with the record of what it was handed: every list of
/// steps, in the order of the calls. The bus is reached through this value
/// alone, so the record is complete.
pub struct Observed<D> {
    device: D,
    seen: Ghost<Seq<Seq<OperationView>>>,
}

impl<D: WasiSpiDevice> Observed<D> {
    /// The bus.
    pub closed spec fn bus(&self) -> D {
        self.device
    }

    /// The lists of steps that the bus was handed, one for each call.
    pub closed spec fn seen(&self) -> Seq<Seq<OperationView>> {
        self.seen@
    }

    /// Whether one call that handed the bus `list`, and no other call, leads
    /// from `pre` to `post`.
    pub open spec fn handed(pre: Self, list: Seq<OperationView>, post: Self) -> bool {
        &&& post.seen() == pre.seen().push(list)
        &&& answers_alike(&pre.bus(), &post.bus())
    }

    /// A bus that was handed nothing yet.
    pub fn new(device: D) -> (observed: Self)
        ensures
            observed.bus() == device,
            observed.seen() == Seq::<Seq<OperationView>>::empty(),
    {
        Observed { device, seen: Ghost(Seq::empty()) }
    }

    /// The bus, to look at.
    pub fn device(&self) -> (device: &D)
        ensures
            *device == self.bus(),
    {
        &self.device
    }

    /// Gives the bus back.
    pub fn into_device(self) -> (device: D)
        ensures
            device == self.bus(),
    {
        self.device
    }

    /// Runs the steps on the bus as one transaction.
    pub fn transaction(&mut self, operations: &mut Vec<DriverOperation>) -> (outcome: Result<
        (),
        ErrorKind,
    >)
        ensures
            shape_kept(operation_views(old(operations)@), operation_views(final(operations)@)),
            old(self).bus().responds(
                operation_views(old(operations)@),
                operation_views(final(operations)@),
                outcome,
            ),
            Self::handed(*old(self), operation_views(old(operations)@), *final(self)),
    {
        let ghost list = operation_views(operations@);
        let outcome = self.device.transaction(operations);
        self.seen = Ghost(self.seen@.push(list));
        outcome
    }

    /// Fills `words` from the bus.
    pub fn read(&mut self, words: &mut Vec<u8>) -> (outcome: Result<(), ErrorKind>)
        ensures
            final(words)@.len() == old(words)@.len(),
            old(self).bus().responds(
                seq![OperationView::Read(old(words)@)],
                seq![OperationView::Read(final(words)@)],
                outcome,
            ),
            Self::handed(*old(self), seq![OperationView::Read(old(words)@)], *final(self)),
    {
        let ghost list = seq![OperationView::Read(words@)];
        let outcome = self.device.read(words);
        self.seen = Ghost(self.seen@.push(list));
        outcome
    }

    /// Sends `words` to the bus.
    pub fn write(&mut self, words: Vec<u8>) -> (outcome: Result<(), ErrorKind>)
        ensures
            old(self).bus().responds(
                seq![OperationView::Write(words@)],
                seq![OperationView::Write(words@)],
                outcome,
            ),
            Self::handed(*old(self), seq![OperationView::Write(words@)], *final(self)),
    {
        let ghost list = seq![OperationView::Write(words@)];
        let outcome = self.device.write(words);
        self.seen = Ghost(self.seen@.push(list));
        outcome
    }

    /// Sends `write` to the bus and fills `read` at the same time.
    pub fn transfer(&mut self, read: &mut Vec<u8>, write: Vec<u8>) -> (outcome: Result<
        (),
        ErrorKind,
    >)
        ensures
            final(read)@.len() == old(read)@.len(),
            old(self).bus().responds(
                seq![OperationView::Transfer(old(read)@, write@)],
                seq![OperationView::Transfer(final(read)@, write@)],
                outcome,
            ),
            Self::handed(
                *old(self),
                seq![OperationView::Transfer(old(read)@, write@)],
                *final(self),
            ),
    {
        let ghost list = seq![OperationView::Transfer(read@, write@)];
        let outcome = self.device.transfer(read, write);
        self.seen = Ghost(self.seen@.push(list));
        outcome
    }

    /// Sends `words` to the bus and fills them with what is read meanwhile.
    pub fn transfer_in_place(&mut self, words: &mut Vec<u8>) -> (outcome: Result<(), ErrorKind>)
        ensures
            final(words)@.len() == old(words)@.len(),
            old(self).bus().responds(
                seq![OperationView::TransferInPlace(old(words)@)],
                seq![OperationView::TransferInPlace(final(words)@)],
                outcome,
            ),
            Self::handed(
                *old(self),
                seq![OperationView::TransferInPlace(old(words)@)],
                *final(self),
            ),
    {
        let ghost list = seq![OperationView::TransferInPlace(words@)];
        let outcome = self.device.transfer_in_place(words);
        self.seen = Ghost(self.seen@.push(list));
        outcome
    }
}

} // verus!
