use embedded_hal::spi::ErrorKind;
use spi_bridge::bus;
use spi_bridge::bus::conclude_with;
use spi_bridge::context::{Lease, SpiContext, SpiImplementation};
use spi_bridge::device::{DriverOperation, Observed, WasiSpiDevice};
use spi_bridge::host::InternalError;
use spi_bridge::mock::{echo, echo_all};
use spi_bridge::ops::{length_fits, lengths_fit};
use spi_bridge::table::LookupError;
use spi_bridge::error::{map_spi_error, ErrorCode};
use spi_bridge::mock::{fill, loop_back, MockError, MockSpi, MockSpiDevice, MockSpiError};
use spi_bridge::ops::{
    collect_results, conclude, into_result, run_transaction, translate, Operation, TransactionState,
};
use spi_bridge::table::Handle;

fn show(op: &DriverOperation) -> String {
    format!("{:?}", op)
}

#[test]
fn every_error_kind_has_its_code() {
    assert_eq!(map_spi_error(ErrorKind::Overrun), ErrorCode::Overrun);
    assert_eq!(map_spi_error(ErrorKind::ModeFault), ErrorCode::ModeFault);
    assert_eq!(map_spi_error(ErrorKind::FrameFormat), ErrorCode::FrameFormat);
    assert_eq!(map_spi_error(ErrorKind::ChipSelectFault), ErrorCode::ChipSelectFault);
    assert_eq!(map_spi_error(ErrorKind::Other), ErrorCode::Other);
    assert_ne!(map_spi_error(ErrorKind::Other), ErrorCode::Busy);
}

#[test]
fn mock_errors_are_of_kind_other() {
    assert_eq!(MockSpiError.kind(), ErrorKind::Other);
    assert_eq!(MockError.kind(), ErrorKind::Other);
    assert_eq!(MockSpiError.message(), "Simulated Mock SPI Error");
    assert_eq!(MockError.message(), "Mock Error");
}

#[test]
fn staging_allocates_what_the_descriptor_asks_for() {
    let read = TransactionState::stage(Operation::Read(3));
    assert_eq!(read.read_buf, Some(vec![0, 0, 0]));
    assert_eq!(read.write_buf, None);
    assert_eq!(read.delay_ns, None);
    let write = TransactionState::stage(Operation::Write(vec![4, 5]));
    assert_eq!(write.read_buf, None);
    assert_eq!(write.write_buf, Some(vec![4, 5]));
    assert_eq!(write.delay_ns, None);
    let transfer = TransactionState::stage(Operation::Transfer(vec![4, 5]));
    assert_eq!(transfer.read_buf, Some(vec![0, 0]));
    assert_eq!(transfer.write_buf, Some(vec![4, 5]));
    assert_eq!(transfer.delay_ns, None);
    let delay = TransactionState::stage(Operation::DelayNs(77));
    assert_eq!(delay.read_buf, None);
    assert_eq!(delay.write_buf, None);
    assert_eq!(delay.delay_ns, Some(77));
}

#[test]
fn a_record_becomes_the_operation_of_its_buffers() {
    let state = |r: Option<Vec<u8>>, w: Option<Vec<u8>>, d: Option<u32>| TransactionState {
        read_buf: r,
        write_buf: w,
        delay_ns: d,
    };
    assert_eq!(show(&state(Some(vec![0]), None, None).into_driver_operation()), "Read([0])");
    assert_eq!(show(&state(None, Some(vec![1]), None).into_driver_operation()), "Write([1])");
    assert_eq!(
        show(&state(Some(vec![0]), Some(vec![1]), None).into_driver_operation()),
        "Transfer([0], [1])"
    );
    assert_eq!(show(&state(None, None, Some(8)).into_driver_operation()), "DelayNs(8)");
    assert_eq!(show(&state(None, None, None).into_driver_operation()), "DelayNs(0)");
    assert_eq!(
        show(&state(Some(vec![0]), Some(vec![1]), Some(8)).into_driver_operation()),
        "DelayNs(8)"
    );
}

#[test]
fn translate_keeps_order_and_count() {
    let ops = translate(vec![
        Operation::DelayNs(1),
        Operation::Read(2),
        Operation::Write(vec![3]),
        Operation::Transfer(vec![4, 5]),
    ]);
    assert_eq!(
        format!("{:?}", ops),
        "[DelayNs(1), Read([0, 0]), Write([3]), Transfer([0, 0], [4, 5])]"
    );
    assert!(translate(vec![]).is_empty());
}

#[test]
fn results_are_the_read_buffers() {
    assert_eq!(into_result(DriverOperation::Read(vec![1, 2])), vec![1, 2]);
    assert_eq!(into_result(DriverOperation::Write(vec![1, 2])), Vec::<u8>::new());
    assert_eq!(into_result(DriverOperation::Transfer(vec![3], vec![4])), vec![3]);
    assert_eq!(into_result(DriverOperation::TransferInPlace(vec![5])), vec![5]);
    assert_eq!(into_result(DriverOperation::DelayNs(6)), Vec::<u8>::new());
    let done = vec![
        DriverOperation::Write(vec![9]),
        DriverOperation::Read(vec![1]),
        DriverOperation::DelayNs(0),
        DriverOperation::Transfer(vec![2, 3], vec![0, 0]),
    ];
    assert_eq!(collect_results(done), vec![vec![], vec![1], vec![], vec![2, 3]]);
}

#[test]
fn conclude_is_all_or_nothing() {
    let done = || vec![DriverOperation::Read(vec![1]), DriverOperation::Write(vec![2])];
    assert_eq!(conclude(Ok(()), done()), Ok(vec![vec![1], vec![]]));
    assert_eq!(conclude(Err(ErrorKind::Overrun), done()), Err(ErrorCode::Overrun));
    assert_eq!(conclude(Err(ErrorKind::FrameFormat), done()), Err(ErrorCode::FrameFormat));
    assert_eq!(conclude(Ok(()), vec![]), Ok(vec![]));
}

#[test]
fn a_single_call_ends_with_its_value_or_the_code_of_the_error() {
    assert_eq!(conclude_with(Ok(()), vec![1u8, 2]), Ok(vec![1, 2]));
    assert_eq!(conclude_with(Ok(()), ()), Ok(()));
    assert_eq!(conclude_with(Err(ErrorKind::Overrun), vec![1u8]), Err(ErrorCode::Overrun));
    assert_eq!(conclude_with(Err(ErrorKind::ModeFault), ()), Err(ErrorCode::ModeFault));
}

#[test]
fn fill_and_loop_back() {
    let mut buf = vec![1, 2, 3];
    fill(&mut buf, 9);
    assert_eq!(buf, vec![9, 9, 9]);
    let mut read = vec![0, 0, 0, 0];
    loop_back(&mut read, &vec![5, 6]);
    assert_eq!(read, vec![5, 6, 0, 0]);
    let mut short = vec![0];
    loop_back(&mut short, &vec![5, 6]);
    assert_eq!(short, vec![5]);
}

#[test]
fn the_loopback_bus_step_by_step() {
    let mut ops = vec![
        DriverOperation::Read(vec![0, 0]),
        DriverOperation::Write(vec![1]),
        DriverOperation::Transfer(vec![0, 0, 0], vec![7, 8]),
        DriverOperation::TransferInPlace(vec![4]),
        DriverOperation::DelayNs(3),
    ];
    assert_eq!(MockSpiDevice.transaction(&mut ops), Ok(()));
    assert_eq!(
        format!("{:?}", ops),
        "[Read([170, 170]), Write([1]), Transfer([7, 8, 0], [7, 8]), TransferInPlace([4]), DelayNs(3)]"
    );
}

#[test]
fn the_constant_bus_step_by_step() {
    let mut ops = vec![
        DriverOperation::Read(vec![0, 0]),
        DriverOperation::Write(vec![1]),
        DriverOperation::Transfer(vec![0, 0, 0], vec![7, 8]),
        DriverOperation::TransferInPlace(vec![4]),
        DriverOperation::DelayNs(3),
    ];
    assert_eq!(MockSpi.transaction(&mut ops), Ok(()));
    assert_eq!(
        format!("{:?}", ops),
        "[Read([66, 66]), Write([1]), Transfer([7, 8, 0], [7, 8]), TransferInPlace([4]), DelayNs(3)]"
    );
}

#[test]
fn the_methods_of_a_bus_are_transactions_of_one_step() {
    let mut bus = MockSpiDevice;
    let mut words = vec![0, 0, 0];
    assert_eq!(bus.read(&mut words), Ok(()));
    assert_eq!(words, vec![0xAA; 3]);
    assert_eq!(bus.write(vec![1, 2]), Ok(()));
    let mut read = vec![0, 0];
    assert_eq!(bus.transfer(&mut read, vec![5, 6]), Ok(()));
    assert_eq!(read, vec![5, 6]);
    let mut in_place = vec![1, 2];
    assert_eq!(MockSpi.transfer_in_place(&mut in_place), Ok(()));
    assert_eq!(in_place, vec![1, 2]);
    let mut echoed = vec![0, 0, 0];
    assert_eq!(MockSpi.transfer(&mut echoed, vec![1, 2, 3]), Ok(()));
    assert_eq!(echoed, vec![1, 2, 3]);
}

#[test]
fn echoing_step_by_step() {
    let mut op = DriverOperation::Transfer(vec![0, 0], vec![4, 5]);
    echo(&mut op, 7);
    assert_eq!(show(&op), "Transfer([4, 5], [4, 5])");
    let mut ops = vec![DriverOperation::Read(vec![0]), DriverOperation::DelayNs(1)];
    echo_all(&mut ops, 7);
    assert_eq!(format!("{:?}", ops), "[Read([7]), DelayNs(1)]");
}

#[test]
fn lengths_that_fit() {
    assert!(length_fits(0));
    assert!(length_fits(isize::MAX as u64));
    assert!(!length_fits(isize::MAX as u64 + 1));
    assert!(!length_fits(u64::MAX));
    assert!(lengths_fit(&vec![]));
    assert!(lengths_fit(&vec![Operation::Read(5), Operation::DelayNs(u32::MAX)]));
    assert!(!lengths_fit(&vec![Operation::Read(5), Operation::Read(u64::MAX)]));
}

#[test]
fn calls_on_a_bus_without_a_table() {
    let mut device = Observed::new(MockSpiDevice);
    assert_eq!(bus::read(&mut device, 2), Ok(vec![0xAA, 0xAA]));
    assert_eq!(bus::read(&mut device, u64::MAX), Err(ErrorCode::Other));
    assert_eq!(bus::write(&mut device, vec![1]), Ok(()));
    assert_eq!(bus::transfer(&mut device, vec![1, 2]), Ok(vec![1, 2]));
    assert_eq!(bus::transfer_in_place(&mut device, vec![1, 2]), Ok(vec![1, 2]));
    assert_eq!(
        run_transaction(&mut device, vec![Operation::Transfer(vec![3]), Operation::Read(1)]),
        Ok(vec![vec![3], vec![0xAA]])
    );
    assert_eq!(
        run_transaction(&mut device, vec![Operation::Read(u64::MAX)]),
        Err(ErrorCode::Other)
    );
    let _bus: MockSpiDevice = device.into_device();
}

#[test]
fn a_lease_is_live_until_it_is_released() {
    let mut lease = Lease::new();
    let h = lease.handle;
    let other = Handle { index: 1, generation: 0 };
    assert_eq!(lease.resolve(h), Ok(()));
    assert_eq!(lease.resolve(other), Err(LookupError::Unknown));
    assert_eq!(lease.release(other), Err(LookupError::Unknown));
    assert_eq!(lease.release(h), Ok(()));
    assert_eq!(lease.resolve(h), Err(LookupError::Stale));
    assert_eq!(lease.release(h), Err(LookupError::Stale));
    assert_eq!(lease.resolve(other), Err(LookupError::Unknown));
}

#[test]
fn a_context_serves_its_handle_until_the_drop() {
    let mut ctx = SpiContext::new(MockSpiDevice);
    let h = ctx.handle();
    let forged = Handle { index: 99, generation: 5 };
    assert_eq!(ctx.read(h, 2), Ok(vec![0xAA, 0xAA]));
    assert_eq!(ctx.read(forged, 2), Err(ErrorCode::Other));
    assert_eq!(ctx.read(h, u64::MAX), Err(ErrorCode::Other));
    assert_eq!(ctx.write(h, vec![1, 2, 3, 4]), Ok(()));
    assert_eq!(ctx.transfer(h, vec![1, 2]), Ok(vec![1, 2]));
    assert_eq!(
        ctx.transaction(h, vec![Operation::Write(vec![9, 9]), Operation::Read(2), Operation::DelayNs(100)]),
        Ok(vec![vec![], vec![0xAA, 0xAA], vec![]])
    );
    assert_eq!(ctx.transaction(h, vec![]), Ok(vec![]));
    assert_eq!(
        ctx.drop(forged),
        Err(InternalError { handle: forged, cause: LookupError::Unknown })
    );
    assert_eq!(ctx.drop(h), Ok(()));
    assert_eq!(ctx.drop(h), Err(InternalError { handle: h, cause: LookupError::Stale }));
    assert_eq!(ctx.read(h, 1), Err(ErrorCode::Other));
    assert_eq!(ctx.write(h, vec![1]), Err(ErrorCode::Other));
    assert_eq!(ctx.transfer(h, vec![1]), Err(ErrorCode::Other));
    assert_eq!(ctx.transfer_in_place(h, vec![1]), Err(ErrorCode::Other));
    assert_eq!(ctx.transaction(h, vec![Operation::Read(1)]), Err(ErrorCode::Other));
    assert_eq!(ctx.transaction(h, vec![]), Err(ErrorCode::Other));
}

struct Echo {
    calls: usize,
    fail: Option<ErrorKind>,
}

impl WasiSpiDevice for Echo {
    fn transaction(&mut self, operations: &mut Vec<DriverOperation>) -> Result<(), ErrorKind> {
        self.calls += 1;
        if let Some(kind) = self.fail {
            return Err(kind);
        }
        for op in operations.iter_mut() {
            match op {
                DriverOperation::Transfer(read, write) => {
                    for (i, b) in read.iter_mut().enumerate() {
                        *b = write[i].wrapping_add(1);
                    }
                }
                DriverOperation::TransferInPlace(buf) => {
                    for b in buf.iter_mut() {
                        *b = b.wrapping_add(1);
                    }
                }
                _ => {}
            }
        }
        Ok(())
    }
}

#[test]
fn an_implementation_transfers_as_many_bytes_in_as_out() {
    let mut spi = SpiImplementation::new(Echo { calls: 0, fail: None });
    let h = spi.0.handle();
    assert_eq!(spi.transfer(h, vec![1, 2]), Ok(vec![2, 3]));
    assert_eq!(spi.transfer(h, vec![]), Ok(vec![]));
    assert_eq!(spi.transfer_in_place(h, vec![1, 255]), Ok(vec![2, 0]));
    assert_eq!(spi.read(h, 2), Ok(vec![0, 0]));
    assert_eq!(spi.write(h, vec![1]), Ok(()));
    assert_eq!(spi.0.bus.device().calls, 5);
    assert_eq!(spi.drop(h), Ok(()));
    assert_eq!(spi.drop(h), Err(InternalError { handle: h, cause: LookupError::Stale }));
    assert_eq!(spi.read(h, 1), Err(ErrorCode::Other));
    assert_eq!(spi.write(h, vec![1]), Err(ErrorCode::Other));
    assert_eq!(spi.transfer(h, vec![1]), Err(ErrorCode::Other));
    assert_eq!(spi.transfer_in_place(h, vec![1]), Err(ErrorCode::Other));
    assert_eq!(spi.0.bus.device().calls, 5);
}

#[test]
fn an_implementation_reports_each_error_by_its_kind() {
    let cases = [
        (ErrorKind::Overrun, ErrorCode::Overrun),
        (ErrorKind::ModeFault, ErrorCode::ModeFault),
        (ErrorKind::FrameFormat, ErrorCode::FrameFormat),
        (ErrorKind::ChipSelectFault, ErrorCode::ChipSelectFault),
        (ErrorKind::Other, ErrorCode::Other),
    ];
    for (kind, code) in cases {
        let mut spi = SpiImplementation::new(Echo { calls: 0, fail: Some(kind) });
        let h = spi.0.handle();
        assert_eq!(spi.read(h, 1), Err(code));
        assert_eq!(spi.write(h, vec![1]), Err(code));
        assert_eq!(spi.transfer(h, vec![1]), Err(code));
        assert_eq!(spi.transfer_in_place(h, vec![1]), Err(code));
    }
}
