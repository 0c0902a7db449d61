//! Single calls on one bus: each is a transaction of one step.

use vstd::prelude::*;
use embedded_hal::spi::ErrorKind;
use crate::device::{Observed, OperationView, WasiSpiDevice, same_shape, shape_kept};
use crate::error::{ErrorCode, error_code_of, map_spi_error};
use crate::ops::{
    Descriptor, is_transaction_result, is_transaction_trace, length_fits, read_back, results_of,
    translated, zeros,
};

verus! {

/// The value of what a call that hands bytes back returns.
pub open spec fn bytes_view(res: Result<Vec<u8>, ErrorCode>) -> Result<Seq<u8>, ErrorCode> {
    match res {
        Ok(buf) => Ok(buf@),
        Err(code) => Err(code),
    }
}

/// The answer of a transaction of one step that handed `result` back.
pub open spec fn single(result: Result<Seq<u8>, ErrorCode>) -> Result<Seq<Seq<u8>>, ErrorCode> {
    match result {
        Ok(buf) => Ok(seq![buf]),
        Err(code) => Err(code),
    }
}

/// The answer of a transaction of one step that hands nothing back.
pub open spec fn single_unit(result: Result<(), ErrorCode>) -> Result<Seq<Seq<u8>>, ErrorCode> {
    match result {
        Ok(_) => Ok(seq![Seq::<u8>::empty()]),
        Err(code) => Err(code),
    }
}

/// Whether `result` is an answer that `device` may give to a read of `len`
/// bytes: that of the transaction that holds this one read.
pub open spec fn is_read_result<D: WasiSpiDevice>(
    device: D,
    len: u64,
    result: Result<Seq<u8>, ErrorCode>,
) -> bool {
    is_transaction_result(device, seq![Descriptor::Read(len)], single(result))
}

/// Whether `result` is an answer that `device` may give to a write of
/// `data`: that of the transaction that holds this one write.
pub open spec fn is_write_result<D: WasiSpiDevice>(
    device: D,
    data: Seq<u8>,
    result: Result<(), ErrorCode>,
) -> bool {
    is_transaction_result(device, seq![Descriptor::Write(data)], single_unit(result))
}

/// Whether `result` is an answer that `device` may give to a transfer of
/// `data`: that of the transaction that holds this one transfer.
pub open spec fn is_transfer_result<D: WasiSpiDevice>(
    device: D,
    data: Seq<u8>,
    result: Result<Seq<u8>, ErrorCode>,
) -> bool {
    is_transaction_result(device, seq![Descriptor::Transfer(data)], single(result))
}

/// Whether `device`, handed the one step `before`, may leave it as `after`
/// and report `outcome`.
pub open spec fn is_step_result<D: WasiSpiDevice>(
    device: D,
    before: OperationView,
    after: OperationView,
    outcome: Result<(), ErrorKind>,
) -> bool {
    same_shape(before, after) && device.responds(seq![before], seq![after], outcome)
}

/// Decides what a single call returns once the driver call is over:
/// `value` on success, the code of the driver's error on failure.
pub fn conclude_with<T>(outcome: Result<(), ErrorKind>, value: T) -> (res: Result<T, ErrorCode>)
    ensures
        res == match outcome {
            Ok(_) => Ok::<T, ErrorCode>(value),
            Err(kind) => Err::<T, ErrorCode>(error_code_of(kind)),
        },
{
    match outcome {
        Ok(_) => Ok(value),
        Err(kind) => Err(map_spi_error(kind)),
    }
}

/// Reads `len` bytes from the bus. A length that no buffer can have is
/// refused with `Other`, and the bus is not touched.
pub fn read<D: WasiSpiDevice>(device: &mut Observed<D>, len: u64) -> (res: Result<
    Vec<u8>,
    ErrorCode,
>)
    ensures
        is_read_result(old(device).bus(), len, bytes_view(res)),
        is_transaction_trace(*old(device), seq![Descriptor::Read(len)], *final(device)),
        res matches Ok(buf) ==> buf@.len() == len,
        !crate::ops::fits(len) ==> res == Err::<Vec<u8>, ErrorCode>(ErrorCode::Other)
            && *final(device) == *old(device),
{
    let ghost requested = seq![Descriptor::Read(len)];
    if !length_fits(len) {
        assert(!crate::ops::admissible(requested)) by {
            assert(requested[0] == Descriptor::Read(len));
        }
        return Err(ErrorCode::Other);
    }
    let mut buffer = vec![0u8; len as usize];
    assert(buffer@ =~= zeros(len as nat));
    let outcome = device.read(&mut buffer);
    proof {
        let after = seq![OperationView::Read(buffer@)];
        assert(translated(requested) =~= seq![OperationView::Read(zeros(len as nat))]);
        assert(results_of(after) =~= seq![buffer@]);
    }
    conclude_with(outcome, buffer)
}

/// Writes `data` to the bus.
pub fn write<D: WasiSpiDevice>(device: &mut Observed<D>, data: Vec<u8>) -> (res: Result<
    (),
    ErrorCode,
>)
    ensures
        is_write_result(old(device).bus(), data@, res),
        is_transaction_trace(*old(device), seq![Descriptor::Write(data@)], *final(device)),
{
    let outcome = device.write(data);
    proof {
        let requested = seq![Descriptor::Write(data@)];
        let after = seq![OperationView::Write(data@)];
        assert(translated(requested) =~= after);
        assert(results_of(after) =~= seq![Seq::<u8>::empty()]);
    }
    conclude_with(outcome, ())
}

/// Writes `data` to the bus and reads as many bytes at the same time.
pub fn transfer<D: WasiSpiDevice>(device: &mut Observed<D>, data: Vec<u8>) -> (res: Result<
    Vec<u8>,
    ErrorCode,
>)
    ensures
        is_transfer_result(old(device).bus(), data@, bytes_view(res)),
        is_transaction_trace(*old(device), seq![Descriptor::Transfer(data@)], *final(device)),
        res matches Ok(buf) ==> buf@.len() == data@.len(),
{
    let mut read_buffer = vec![0u8; data.len()];
    assert(read_buffer@ =~= zeros(data@.len()));
    let outcome = device.transfer(&mut read_buffer, data);
    proof {
        let requested = seq![Descriptor::Transfer(data@)];
        let after = seq![OperationView::Transfer(read_buffer@, data@)];
        assert(translated(requested) =~= seq![
            OperationView::Transfer(zeros(data@.len()), data@),
        ]);
        assert(results_of(after) =~= seq![read_buffer@]);
    }
    conclude_with(outcome, read_buffer)
}

/// Whether `result` is an answer that `device` may give to an in-place
/// transfer of `data`: the bytes it read into their place, or the code of
/// its error.
pub open spec fn is_transfer_in_place_result<D: WasiSpiDevice>(
    device: D,
    data: Seq<u8>,
    result: Result<Seq<u8>, ErrorCode>,
) -> bool {
    exists|after: OperationView, outcome: Result<(), ErrorKind>|
        {
            &&& #[trigger] is_step_result(
                device,
                OperationView::TransferInPlace(data),
                after,
                outcome,
            )
            &&& result == match outcome {
                Ok(_) => Ok::<Seq<u8>, ErrorCode>(read_back(after)),
                Err(kind) => Err::<Seq<u8>, ErrorCode>(error_code_of(kind)),
            }
        }
}

/// Writes `data` to the bus and hands back what was read into its place.
pub fn transfer_in_place<D: WasiSpiDevice>(device: &mut Observed<D>, data: Vec<u8>) -> (res:
    Result<Vec<u8>, ErrorCode>)
    ensures
        is_transfer_in_place_result(old(device).bus(), data@, bytes_view(res)),
        Observed::handed(*old(device), seq![OperationView::TransferInPlace(data@)], *final(device)),
        res matches Ok(buf) ==> buf@.len() == data@.len(),
{
    let mut buffer = data;
    let outcome = device.transfer_in_place(&mut buffer);
    proof {
        assert(is_step_result(
            old(device).bus(),
            OperationView::TransferInPlace(data@),
            OperationView::TransferInPlace(buffer@),
            outcome,
        ));
    }
    conclude_with(outcome, buffer)
}

} // verus!
