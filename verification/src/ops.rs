//! The operation translator: from the guest's descriptors to driver
//! operations, and from the driver's buffers back to results.

use vstd::prelude::*;
use embedded_hal::spi::ErrorKind;
use crate::device::{
    DriverOperation, Observed, OperationView, WasiSpiDevice, operation_views, shape_kept,
};
use crate::error::{ErrorCode, error_code_of, map_spi_error};

verus! {

/// One step of a transaction as the guest describes it.
#[derive(Debug)]
pub enum Operation {
    /// Read this many bytes.
    Read(u64),
    /// Write these bytes.
    Write(Vec<u8>),
    /// Write these bytes and read as many at the same time.
    Transfer(Vec<u8>),
    /// Wait for at least this many nanoseconds.
    DelayNs(u32),
}

/// The mathematical value of an [`Operation`].
pub ghost enum Descriptor {
    Read(u64),
    Write(Seq<u8>),
    Transfer(Seq<u8>),
    DelayNs(u32),
}

impl View for Operation {
    type V = Descriptor;

    open spec fn view(&self) -> Descriptor {
        match *self {
            Operation::Read(len) => Descriptor::Read(len),
            Operation::Write(data) => Descriptor::Write(data@),
            Operation::Transfer(data) => Descriptor::Transfer(data@),
            Operation::DelayNs(ns) => Descriptor::DelayNs(ns),
        }
    }
}

/// The values of a list of descriptors, in order.
pub open spec fn descriptors(ops: Seq<Operation>) -> Seq<Descriptor> {
    Seq::new(ops.len(), |i: int| ops[i]@)
}

/// The contents of a list of buffers, in order.
pub open spec fn buffers(bufs: Seq<Vec<u8>>) -> Seq<Seq<u8>> {
    Seq::new(bufs.len(), |i: int| bufs[i]@)
}

/// Whether a buffer of `len` bytes can exist: no buffer is longer than
/// `isize::MAX` bytes.
pub open spec fn fits(len: u64) -> bool {
    len <= isize::MAX
}

/// Whether every read of `requested` asks for a length that a buffer can have.
pub open spec fn admissible(requested: Seq<Descriptor>) -> bool {
    forall|i: int|
        0 <= i < requested.len() ==> (#[trigger] requested[i] matches Descriptor::Read(len)
            ==> fits(len))
}

/// Tells whether a buffer of `len` bytes can exist.
pub fn length_fits(len: u64) -> (ok: bool)
    ensures
        ok == fits(len),
{
    len <= isize::MAX as u64
}

/// Tells whether every read of `operations` asks for a length that a buffer
/// can have.
pub fn lengths_fit(operations: &Vec<Operation>) -> (ok: bool)
    ensures
        ok == admissible(descriptors(operations@)),
{
    let n = operations.len();
    let mut i: usize = 0;
    while i < n
        invariant
            i <= n,
            n == operations@.len(),
            forall|j: int|
                0 <= j < i ==> (#[trigger] descriptors(operations@)[j] matches Descriptor::Read(
                    len,
                ) ==> fits(len)),
        decreases n - i,
    {
        if let Operation::Read(len) = &operations[i] {
            if !length_fits(*len) {
                assert(descriptors(operations@)[i as int] == Descriptor::Read(*len));
                return false;
            }
        }
        i += 1;
    }
    true
}

/// `len` zero bytes.
pub open spec fn zeros(len: nat) -> Seq<u8> {
    Seq::new(len, |i: int| 0u8)
}

/// The buffers and the delay that one step of a transaction works with.
#[derive(Debug)]
pub struct TransactionState {
    pub read_buf: Option<Vec<u8>>,
    pub write_buf: Option<Vec<u8>>,
    pub delay_ns: Option<u32>,
}

/// The mathematical value of a [`TransactionState`].
pub ghost struct StateView {
    pub read_buf: Option<Seq<u8>>,
    pub write_buf: Option<Seq<u8>>,
    pub delay_ns: Option<u32>,
}

impl View for TransactionState {
    type V = StateView;

    open spec fn view(&self) -> StateView {
        StateView {
            read_buf: match self.read_buf {
                Some(buf) => Some(buf@),
                None => None,
            },
            write_buf: match self.write_buf {
                Some(buf) => Some(buf@),
                None => None,
            },
            delay_ns: self.delay_ns,
        }
    }
}

impl TransactionState {
    /// The record that a descriptor asks for: a zeroed buffer for what is to
    /// be read, the guest's bytes for what is to be written.
    pub open spec fn staged(op: Descriptor) -> StateView {
        match op {
            Descriptor::Read(len) => StateView {
                read_buf: Some(zeros(len as nat)),
                write_buf: None,
                delay_ns: None,
            },
            Descriptor::Write(data) => StateView {
                read_buf: None,
                write_buf: Some(data),
                delay_ns: None,
            },
            Descriptor::Transfer(data) => StateView {
                read_buf: Some(zeros(data.len())),
                write_buf: Some(data),
                delay_ns: None,
            },
            Descriptor::DelayNs(ns) => StateView {
                read_buf: None,
                write_buf: None,
                delay_ns: Some(ns),
            },
        }
    }

    /// The driver operation that a record becomes. A record with a delay is
    /// a delay; one without anything is a delay of zero, which does nothing.
    pub open spec fn lowered(state: StateView) -> OperationView {
        match (state.delay_ns, state.read_buf, state.write_buf) {
            (Some(ns), _, _) => OperationView::DelayNs(ns),
            (None, Some(read), Some(write)) => OperationView::Transfer(read, write),
            (None, Some(read), None) => OperationView::Read(read),
            (None, None, Some(write)) => OperationView::Write(write),
            (None, None, None) => OperationView::DelayNs(0),
        }
    }

    /// Allocates the record for one descriptor. A read must ask for a
    /// length that a buffer can have.
    pub fn stage(op: Operation) -> (state: TransactionState)
        requires
            op@ matches Descriptor::Read(len) ==> fits(len),
        ensures
            state@ == Self::staged(op@),
    {
        match op {
            Operation::Read(len) => {
                let read = vec![0u8; len as usize];
                assert(read@ =~= zeros(len as nat));
                TransactionState { read_buf: Some(read), write_buf: None, delay_ns: None }
            },
            Operation::Write(data) => TransactionState {
                read_buf: None,
                write_buf: Some(data),
                delay_ns: None,
            },
            Operation::Transfer(data) => {
                let read = vec![0u8; data.len()];
                assert(read@ =~= zeros(data@.len()));
                TransactionState { read_buf: Some(read), write_buf: Some(data), delay_ns: None }
            },
            Operation::DelayNs(ns) => TransactionState {
                read_buf: None,
                write_buf: None,
                delay_ns: Some(ns),
            },
        }
    }

    /// Binds the record's buffers into the driver operation that works on them.
    pub fn into_driver_operation(self) -> (op: DriverOperation)
        ensures
            op@ == Self::lowered(self@),
    {
        if let Some(ns) = self.delay_ns {
            return DriverOperation::DelayNs(ns);
        }
        match (self.read_buf, self.write_buf) {
            (Some(read), Some(write)) => DriverOperation::Transfer(read, write),
            (Some(read), None) => DriverOperation::Read(read),
            (None, Some(write)) => DriverOperation::Write(write),
            (None, None) => DriverOperation::DelayNs(0),
        }
    }
}

/// The driver operations that a list of descriptors becomes: one for each, in order.
pub open spec fn translated(requested: Seq<Descriptor>) -> Seq<OperationView> {
    Seq::new(
        requested.len(),
        |i: int| TransactionState::lowered(TransactionState::staged(requested[i])),
    )
}

/// What a step hands back to the guest: the buffer it read into, if it has one.
pub open spec fn read_back(op: OperationView) -> Seq<u8> {
    match op {
        OperationView::Read(buf) => buf,
        OperationView::Transfer(read, _) => read,
        OperationView::TransferInPlace(buf) => buf,
        _ => Seq::empty(),
    }
}

/// The results of a transaction: one for each step, in order.
pub open spec fn results_of(ops: Seq<OperationView>) -> Seq<Seq<u8>> {
    Seq::new(ops.len(), |i: int| read_back(ops[i]))
}

/// What the guest gets for a transaction whose driver call ended in
/// `outcome` and left the steps as `after`: every result, or one error code
/// and nothing else.
pub open spec fn concluded(outcome: Result<(), ErrorKind>, after: Seq<OperationView>) -> Result<
    Seq<Seq<u8>>,
    ErrorCode,
> {
    match outcome {
        Ok(_) => Ok(results_of(after)),
        Err(kind) => Err(error_code_of(kind)),
    }
}

/// The value of what a transaction returns.
pub open spec fn outcome_view(res: Result<Vec<Vec<u8>>, ErrorCode>) -> Result<
    Seq<Seq<u8>>,
    ErrorCode,
> {
    match res {
        Ok(bufs) => Ok(buffers(bufs@)),
        Err(code) => Err(code),
    }
}

/// Whether `result` is an answer that `device` may give to the transaction
/// `requested`. A transaction with a read that no buffer can hold is
/// refused with `Other`. Every other one is translated and handed to the
/// device, and the answer is what was concluded from its outcome.
pub open spec fn is_transaction_result<D: WasiSpiDevice>(
    device: D,
    requested: Seq<Descriptor>,
    result: Result<Seq<Seq<u8>>, ErrorCode>,
) -> bool {
    if admissible(requested) {
        exists|after: Seq<OperationView>, outcome: Result<(), ErrorKind>|
            {
                &&& shape_kept(translated(requested), after)
                &&& #[trigger] device.responds(translated(requested), after, outcome)
                &&& result == concluded(outcome, after)
            }
    } else {
        result == Err::<Seq<Seq<u8>>, ErrorCode>(ErrorCode::Other)
    }
}

/// What a transaction `requested` does to the bus: it is handed the
/// translated steps in one call, and no other call is made; where the
/// transaction is refused for a length, the bus is not touched.
pub open spec fn is_transaction_trace<D: WasiSpiDevice>(
    pre: Observed<D>,
    requested: Seq<Descriptor>,
    post: Observed<D>,
) -> bool {
    if admissible(requested) {
        Observed::handed(pre, translated(requested), post)
    } else {
        post == pre
    }
}

/// The number of bytes that a step hands back when the transaction succeeds.
pub open spec fn reply_len(op: Descriptor) -> nat {
    match op {
        Descriptor::Read(len) => len as nat,
        Descriptor::Transfer(data) => data.len(),
        _ => 0,
    }
}

/// Builds the driver operations for a list of descriptors, of which every
/// read asks for a length that a buffer can have.
pub fn translate(operations: Vec<Operation>) -> (ops: Vec<DriverOperation>)
    requires
        admissible(descriptors(operations@)),
    ensures
        operation_views(ops@) == translated(descriptors(operations@)),
{
    let mut operations = operations;
    let ghost requested = operations@;
    let n = operations.len();
    let mut ops: Vec<DriverOperation> = Vec::with_capacity(n);
    let mut i: usize = 0;
    while i < n
        invariant
            i <= n,
            n == requested.len(),
            operations@.len() == n,
            ops@.len() == i,
            admissible(descriptors(requested)),
            forall|j: int| i <= j < n ==> operations@[j] == requested[j],
            forall|j: int|
                0 <= j < i ==> (#[trigger] ops@[j])@ == TransactionState::lowered(
                    TransactionState::staged(requested[j]@),
                ),
        decreases n - i,
    {
        let mut op = Operation::DelayNs(0);
        core::mem::swap(&mut operations[i], &mut op);
        assert(descriptors(requested)[i as int] == op@);
        let state = TransactionState::stage(op);
        ops.push(state.into_driver_operation());
        i += 1;
    }
    ops
}

/// Takes the buffer that a step read into out of it; empty where it read nothing.
pub fn into_result(op: DriverOperation) -> (buf: Vec<u8>)
    ensures
        buf@ == read_back(op@),
{
    match op {
        DriverOperation::Read(buf) => buf,
        DriverOperation::Transfer(read, _) => read,
        DriverOperation::TransferInPlace(buf) => buf,
        _ => Vec::new(),
    }
}

/// Gathers the results of every step, in order.
pub fn collect_results(ops: Vec<DriverOperation>) -> (results: Vec<Vec<u8>>)
    ensures
        buffers(results@) == results_of(operation_views(ops@)),
{
    let mut ops = ops;
    let ghost done = ops@;
    let n = ops.len();
    let mut results: Vec<Vec<u8>> = Vec::with_capacity(n);
    let mut i: usize = 0;
    while i < n
        invariant
            i <= n,
            n == done.len(),
            ops@.len() == n,
            results@.len() == i,
            forall|j: int| i <= j < n ==> ops@[j] == done[j],
            forall|j: int| 0 <= j < i ==> (#[trigger] results@[j])@ == read_back(done[j]@),
        decreases n - i,
    {
        let mut op = DriverOperation::DelayNs(0);
        core::mem::swap(&mut ops[i], &mut op);
        results.push(into_result(op));
        i += 1;
    }
    results
}

/// Decides what a transaction returns once the driver call is over: all
/// results on success, the mapped error code and no buffer on failure.
pub fn conclude(outcome: Result<(), ErrorKind>, ops: Vec<DriverOperation>) -> (res: Result<
    Vec<Vec<u8>>,
    ErrorCode,
>)
    ensures
        outcome_view(res) == concluded(outcome, operation_views(ops@)),
{
    match outcome {
        Ok(_) => Ok(collect_results(ops)),
        Err(kind) => Err(map_spi_error(kind)),
    }
}

/// Runs `operations` on `device` as one transaction and returns the result
/// of each step in the order of the descriptors.
pub fn run_transaction<D: WasiSpiDevice>(
    device: &mut Observed<D>,
    operations: Vec<Operation>,
) -> (res: Result<Vec<Vec<u8>>, ErrorCode>)
    ensures
        is_transaction_result(old(device).bus(), descriptors(operations@), outcome_view(res)),
        is_transaction_trace(*old(device), descriptors(operations@), *final(device)),
        match res {
            Ok(results) => {
                &&& results@.len() == operations@.len()
                &&& forall|i: int|
                    0 <= i < results@.len() ==> (#[trigger] results@[i])@.len() == reply_len(
                        operations@[i]@,
                    )
            },
            Err(_) => true,
        },
{
    if !lengths_fit(&operations) {
        return Err(ErrorCode::Other);
    }
    let mut ops = translate(operations);
    let outcome = device.transaction(&mut ops);
    let res = conclude(outcome, ops);
    proof {
        assert(old(device).bus().responds(
            translated(descriptors(operations@)),
            operation_views(ops@),
            outcome,
        ));
        lemma_results_follow_request(
            old(device).bus(),
            descriptors(operations@),
            outcome_view(res),
        );
        if res is Ok {
            let results = res->Ok_0;
            assert forall|i: int| 0 <= i < results@.len() implies (#[trigger] results@[i])@.len()
                == reply_len(operations@[i]@) by {
                assert(buffers(results@)[i] == results@[i]@);
            }
        }
    }
    res
}

/// The results of a transaction come in the order of its descriptors: there
/// is one for each, and each has the length that its descriptor asks for.
pub proof fn lemma_results_follow_request<D: WasiSpiDevice>(
    device: D,
    requested: Seq<Descriptor>,
    result: Result<Seq<Seq<u8>>, ErrorCode>,
)
    requires
        is_transaction_result(device, requested, result),
    ensures
        match result {
            Ok(results) => {
                &&& results.len() == requested.len()
                &&& forall|i: int|
                    0 <= i < results.len() ==> (#[trigger] results[i]).len() == reply_len(
                        requested[i],
                    )
            },
            Err(_) => true,
        },
{
}

/// A transaction without steps has no results: where the bus accepts the
/// empty call, the answer is the empty list.
pub proof fn lemma_empty_transaction<D: WasiSpiDevice>(
    device: D,
    result: Result<Seq<Seq<u8>>, ErrorCode>,
)
    requires
        is_transaction_result(device, Seq::<Descriptor>::empty(), result),
    ensures
        result is Ok ==> result == Ok::<Seq<Seq<u8>>, ErrorCode>(Seq::empty()),
{
    lemma_results_follow_request(device, Seq::empty(), result);
    if result is Ok {
        assert(result->Ok_0 =~= Seq::<Seq<u8>>::empty());
    }
}

/// A transaction fails as a whole: where the bus is handed the steps and
/// can only answer them with an error of kind `kind`, the call fails with the code of that
/// kind and hands no buffer back. An overrun in particular, at whatever
/// step, is `Overrun` for the whole call.
pub proof fn lemma_driver_error_fails_the_call<D: WasiSpiDevice>(
    device: D,
    requested: Seq<Descriptor>,
    result: Result<Seq<Seq<u8>>, ErrorCode>,
    kind: ErrorKind,
)
    requires
        admissible(requested),
        is_transaction_result(device, requested, result),
        forall|after: Seq<OperationView>, outcome: Result<(), ErrorKind>| #[trigger]
            device.responds(translated(requested), after, outcome) ==> outcome == Err::<
                (),
                ErrorKind,
            >(kind),
    ensures
        result == Err::<Seq<Seq<u8>>, ErrorCode>(error_code_of(kind)),
        kind == ErrorKind::Overrun ==> result == Err::<Seq<Seq<u8>>, ErrorCode>(
            ErrorCode::Overrun,
        ),
{
}

} // verus!
