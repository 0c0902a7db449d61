use embedded_hal::spi::ErrorKind;
use spi_bridge::device::{DriverOperation, SpiResource, WasiSpiDevice};
use spi_bridge::error::ErrorCode;
use spi_bridge::host::{GuestHost, HostState, InternalError};
use spi_bridge::mock::{MockSpi, MockSpiDevice};
use spi_bridge::ops::Operation;
use spi_bridge::table::{Handle, LookupError};

/// A bus that refuses every transaction with one error kind.
struct FailingBus {
    kind: ErrorKind,
    calls: usize,
}

impl WasiSpiDevice for FailingBus {
    fn transaction(&mut self, _operations: &mut Vec<DriverOperation>) -> Result<(), ErrorKind> {
        self.calls += 1;
        Err(self.kind)
    }
}

/// A bus that fills what it reads, and fails at the step of a given index.
struct FailingAtStep {
    step: usize,
    kind: ErrorKind,
}

impl WasiSpiDevice for FailingAtStep {
    fn transaction(&mut self, operations: &mut Vec<DriverOperation>) -> Result<(), ErrorKind> {
        for (i, op) in operations.iter_mut().enumerate() {
            if i == self.step {
                return Err(self.kind);
            }
            if let DriverOperation::Read(buf) = op {
                for b in buf.iter_mut() {
                    *b = 0x11;
                }
            }
        }
        Ok(())
    }
}

fn mock_host() -> (HostState<MockSpiDevice>, Handle) {
    let mut host = HostState::new();
    let handle = host.attach(MockSpiDevice);
    (host, handle)
}

#[test]
fn write_then_read_on_the_mock() {
    let (mut host, h) = mock_host();
    assert_eq!(host.write(h, vec![1, 2, 3, 4]), Ok(()));
    assert_eq!(host.read(h, 4), Ok(vec![0xAA, 0xAA, 0xAA, 0xAA]));
}

#[test]
fn transaction_of_write_read_delay() {
    let (mut host, h) = mock_host();
    let ops = vec![Operation::Write(vec![9, 9]), Operation::Read(2), Operation::DelayNs(100)];
    assert_eq!(host.transaction(h, ops), Ok(vec![vec![], vec![0xAA, 0xAA], vec![]]));
}

#[test]
fn read_returns_as_many_bytes_as_asked() {
    let (mut host, h) = mock_host();
    for n in [0u64, 1, 2, 17, 256, 4096] {
        let bytes = host.read(h, n).unwrap();
        assert_eq!(bytes.len() as u64, n);
        assert!(bytes.iter().all(|b| *b == 0xAA));
    }
}

#[test]
fn transfer_returns_as_many_bytes_as_given() {
    let mut host = HostState::new();
    let h = host.attach(MockSpi);
    for n in [0usize, 1, 5, 300] {
        let data: Vec<u8> = (0..n).map(|i| i as u8).collect();
        let bytes = host.transfer(h, data.clone()).unwrap();
        assert_eq!(bytes.len(), n);
        assert_eq!(bytes, data);
    }
}

#[test]
fn a_read_that_no_buffer_can_hold_is_refused() {
    let mut host = HostState::new();
    let h = host.attach(FailingBus { kind: ErrorKind::Overrun, calls: 0 });
    let too_long = isize::MAX as u64 + 1;
    assert_eq!(host.read(h, too_long), Err(ErrorCode::Other));
    assert_eq!(host.read(h, u64::MAX), Err(ErrorCode::Other));
    assert_eq!(
        host.transaction(h, vec![Operation::Write(vec![1]), Operation::Read(too_long)]),
        Err(ErrorCode::Other)
    );
    assert_eq!(host.table.borrow_mut(h).unwrap().device().calls, 0);
    assert_eq!(host.read(h, 1), Err(ErrorCode::Overrun));
    assert_eq!(host.table.borrow_mut(h).unwrap().device().calls, 1);
    let (mut mock, m) = mock_host();
    assert_eq!(mock.read(m, u64::MAX), Err(ErrorCode::Other));
    assert_eq!(mock.read(m, 2), Ok(vec![0xAA, 0xAA]));
}

#[test]
fn the_guest_reaches_its_devices_by_number() {
    let mut host: GuestHost<SpiResource> = GuestHost::new();
    assert_eq!(host.read(0, 1), Err(ErrorCode::Other));
    let a = host.attach(SpiResource::mock_device()).ok();
    let b = host.attach(SpiResource::mock()).ok();
    assert_eq!(a, Some(0));
    assert_eq!(b, Some(1));
    assert_eq!(host.write(0, vec![1, 2, 3, 4]), Ok(()));
    assert_eq!(host.read(0, 4), Ok(vec![0xAA; 4]));
    assert_eq!(host.read(1, 2), Ok(vec![0x42; 2]));
    assert_eq!(host.transfer(1, vec![1, 2, 3]), Ok(vec![1, 2, 3]));
    assert_eq!(
        host.transaction(0, vec![Operation::Write(vec![9, 9]), Operation::Read(2), Operation::DelayNs(100)]),
        Ok(vec![vec![], vec![0xAA, 0xAA], vec![]])
    );
    assert_eq!(host.drop(0), Ok(()));
    assert!(host.drop(0).is_err());
    assert_eq!(host.read(0, 1), Err(ErrorCode::Other));
    assert_eq!(host.write(0, vec![1]), Err(ErrorCode::Other));
    assert_eq!(host.transfer(0, vec![1]), Err(ErrorCode::Other));
    assert_eq!(host.transaction(0, vec![]), Err(ErrorCode::Other));
    let c = host.attach(SpiResource { device: Box::new(MockSpi) }).ok();
    assert_eq!(c, Some(2));
    assert_eq!(host.read(0, 1), Err(ErrorCode::Other));
    assert_eq!(host.read(2, 1), Ok(vec![0x42]));
    assert_eq!(host.read(1, 1), Ok(vec![0x42]));
    assert_eq!(host.read(3, 1), Err(ErrorCode::Other));
    assert!(host.drop(9).is_err());
}

#[test]
fn transfer_on_the_loopback_echoes() {
    let (mut host, h) = mock_host();
    assert_eq!(host.transfer(h, vec![]), Ok(vec![]));
    assert_eq!(host.transfer(h, vec![7]), Ok(vec![7]));
    assert_eq!(host.transfer(h, vec![0, 255, 3, 3, 9]), Ok(vec![0, 255, 3, 3, 9]));
    let long: Vec<u8> = (0..1000u32).map(|i| (i % 251) as u8).collect();
    assert_eq!(host.transfer(h, long.clone()), Ok(long));
}

#[test]
fn transaction_results_keep_the_order_of_the_descriptors() {
    let (mut host, h) = mock_host();
    let a = vec![
        Operation::Read(1),
        Operation::Transfer(vec![1, 2, 3]),
        Operation::Write(vec![8]),
        Operation::DelayNs(5),
        Operation::Read(3),
    ];
    assert_eq!(
        host.transaction(h, a),
        Ok(vec![vec![0xAA], vec![1, 2, 3], vec![], vec![], vec![0xAA; 3]])
    );
    let b = vec![
        Operation::Read(3),
        Operation::DelayNs(5),
        Operation::Write(vec![8]),
        Operation::Transfer(vec![1, 2, 3]),
        Operation::Read(1),
    ];
    assert_eq!(
        host.transaction(h, b),
        Ok(vec![vec![0xAA; 3], vec![], vec![], vec![1, 2, 3], vec![0xAA]])
    );
}

#[test]
fn transaction_with_zero_lengths() {
    let (mut host, h) = mock_host();
    let ops = vec![Operation::Read(0), Operation::Transfer(vec![]), Operation::Write(vec![])];
    assert_eq!(host.transaction(h, ops), Ok(vec![vec![], vec![], vec![]]));
}

#[test]
fn empty_transaction_succeeds_without_results() {
    let (mut host, h) = mock_host();
    assert_eq!(host.transaction(h, vec![]), Ok(vec![]));
}

#[test]
fn drop_once_succeeds_and_twice_is_an_error() {
    let (mut host, h) = mock_host();
    assert_eq!(host.drop(h), Ok(()));
    assert_eq!(host.drop(h), Err(InternalError { handle: h, cause: LookupError::Stale }));
    assert_eq!(host.drop(h), Err(InternalError { handle: h, cause: LookupError::Stale }));
}

#[test]
fn drop_of_a_handle_never_issued_is_an_error() {
    let (mut host, h) = mock_host();
    let forged = Handle { index: h.index + 1, generation: 0 };
    assert_eq!(host.drop(forged), Err(InternalError { handle: forged, cause: LookupError::Unknown }));
    let early = Handle { index: h.index, generation: h.generation + 1 };
    assert_eq!(host.drop(early), Err(InternalError { handle: early, cause: LookupError::Unknown }));
    assert_eq!(host.read(h, 1), Ok(vec![0xAA]));
}

#[test]
fn calls_after_drop_fail_with_other() {
    let (mut host, h) = mock_host();
    assert_eq!(host.drop(h), Ok(()));
    assert_eq!(host.read(h, 4), Err(ErrorCode::Other));
    assert_eq!(host.write(h, vec![1]), Err(ErrorCode::Other));
    assert_eq!(host.transfer(h, vec![1]), Err(ErrorCode::Other));
    assert_eq!(host.transaction(h, vec![Operation::Read(1)]), Err(ErrorCode::Other));
    assert_eq!(host.transaction(h, vec![]), Err(ErrorCode::Other));
}

#[test]
fn a_dropped_handle_stays_dead_when_its_slot_is_used_again() {
    let (mut host, first) = mock_host();
    assert_eq!(host.drop(first), Ok(()));
    let second = host.attach(MockSpiDevice);
    assert_ne!(first, second);
    assert_eq!(second.index, first.index);
    assert_eq!(host.read(first, 1), Err(ErrorCode::Other));
    assert_eq!(host.drop(first), Err(InternalError { handle: first, cause: LookupError::Stale }));
    assert_eq!(host.read(second, 1), Ok(vec![0xAA]));
}

#[test]
fn a_lookup_error_reaches_the_guest_as_other() {
    assert_eq!(spi_bridge::host::map_lookup_error(LookupError::Unknown), ErrorCode::Other);
    assert_eq!(spi_bridge::host::map_lookup_error(LookupError::Stale), ErrorCode::Other);
}

#[test]
fn a_dead_handle_does_not_reach_the_bus() {
    let mut host = HostState::new();
    let h = host.attach(FailingBus { kind: ErrorKind::Overrun, calls: 0 });
    let forged = Handle { index: 7, generation: 0 };
    assert_eq!(host.read(forged, 1), Err(ErrorCode::Other));
    assert_eq!(host.write(forged, vec![1]), Err(ErrorCode::Other));
    assert_eq!(host.table.borrow_mut(h).unwrap().device().calls, 0);
    assert_eq!(host.read(h, 1), Err(ErrorCode::Overrun));
    assert_eq!(host.table.borrow_mut(h).unwrap().device().calls, 1);
}

#[test]
fn devices_are_told_apart_by_their_handles() {
    let mut host: HostState<SpiResource> = HostState::new();
    let a = host.attach(SpiResource { device: Box::new(MockSpiDevice) });
    let b = host.attach(SpiResource { device: Box::new(MockSpi) });
    let c = host.attach(SpiResource {
        device: Box::new(FailingBus { kind: ErrorKind::ModeFault, calls: 0 }),
    });
    assert_eq!(host.read(a, 2), Ok(vec![0xAA, 0xAA]));
    assert_eq!(host.read(b, 2), Ok(vec![0x42, 0x42]));
    assert_eq!(host.read(c, 2), Err(ErrorCode::ModeFault));
    assert_eq!(host.transfer(a, vec![1, 2]), Ok(vec![1, 2]));
    assert_eq!(host.transfer(b, vec![1, 2]), Ok(vec![1, 2]));
    assert_eq!(host.drop(b), Ok(()));
    assert_eq!(host.read(a, 1), Ok(vec![0xAA]));
    assert_eq!(host.read(b, 1), Err(ErrorCode::Other));
    assert_eq!(host.write(c, vec![]), Err(ErrorCode::ModeFault));
}

#[test]
fn a_driver_error_fails_the_whole_call_with_its_code() {
    let cases = [
        (ErrorKind::Overrun, ErrorCode::Overrun),
        (ErrorKind::ModeFault, ErrorCode::ModeFault),
        (ErrorKind::FrameFormat, ErrorCode::FrameFormat),
        (ErrorKind::ChipSelectFault, ErrorCode::ChipSelectFault),
        (ErrorKind::Other, ErrorCode::Other),
    ];
    for (kind, code) in cases {
        let mut host = HostState::new();
        let h = host.attach(FailingBus { kind, calls: 0 });
        assert_eq!(host.read(h, 3), Err(code));
        assert_eq!(host.write(h, vec![1, 2]), Err(code));
        assert_eq!(host.transfer(h, vec![1, 2]), Err(code));
        assert_eq!(host.transaction(h, vec![Operation::Write(vec![1]), Operation::Read(1)]), Err(code));
        assert_eq!(host.transaction(h, vec![]), Err(code));
    }
}

#[test]
fn overrun_at_any_step_fails_the_whole_transaction() {
    for step in 0..3 {
        let mut host = HostState::new();
        let h = host.attach(FailingAtStep { step, kind: ErrorKind::Overrun });
        let ops = vec![Operation::Read(2), Operation::Write(vec![1]), Operation::Read(1)];
        assert_eq!(host.transaction(h, ops), Err(ErrorCode::Overrun));
    }
    let mut host = HostState::new();
    let h = host.attach(FailingAtStep { step: 3, kind: ErrorKind::Overrun });
    let ops = vec![Operation::Read(2), Operation::Write(vec![1]), Operation::Read(1)];
    assert_eq!(host.transaction(h, ops), Ok(vec![vec![0x11, 0x11], vec![], vec![0x11]]));
}

#[test]
fn each_call_is_one_transaction_of_one_step() {
    struct Recorder {
        seen: Vec<String>,
    }
    impl WasiSpiDevice for Recorder {
        fn transaction(&mut self, operations: &mut Vec<DriverOperation>) -> Result<(), ErrorKind> {
            self.seen.push(format!("{:?}", operations));
            Ok(())
        }
    }
    let mut host = HostState::new();
    let h = host.attach(Recorder { seen: vec![] });
    assert_eq!(host.read(h, 2), Ok(vec![0, 0]));
    assert_eq!(host.write(h, vec![5, 6]), Ok(()));
    assert_eq!(host.transfer(h, vec![7]), Ok(vec![0]));
    assert_eq!(
        host.transaction(h, vec![Operation::DelayNs(9), Operation::Transfer(vec![1, 2])]),
        Ok(vec![vec![], vec![0, 0]])
    );
    assert_eq!(host.transaction(h, vec![]), Ok(vec![]));
    let seen = &host.table.borrow_mut(h).unwrap().device().seen;
    assert_eq!(
        seen,
        &vec![
            "[Read([0, 0])]".to_string(),
            "[Write([5, 6])]".to_string(),
            "[Transfer([0], [7])]".to_string(),
            "[DelayNs(9), Transfer([0, 0], [1, 2])]".to_string(),
            "[]".to_string(),
        ]
    );
}
