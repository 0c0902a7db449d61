//! A capability bridge between a sandboxed guest and SPI buses owned by the host.
//!
//! The guest holds opaque handles; the host resolves each handle to a bus,
//! translates the guest's operation descriptors into driver operations, runs
//! them as one transaction and hands the read buffers (or one error code) back.
//!
//! - [`error`]: the error codes that reach the guest, and the mapping into them;
//! - [`device`]: the interface of a bus, and the operations it runs;
//! - [`mock`]: simulated buses;
//! - [`ops`]: from descriptors to driver operations and back to results;
//! - [`bus`]: single reads, writes and transfers on one bus;
//! - [`table`]: the table of handles and resources;
//! - [`host`]: the calls of the guest, by handle and by the guest's number;
//! - [`context`]: the same calls for a host with one bus and one handle;
//! - [`config`]: device configuration and the strings that describe it.

pub mod error;
pub mod device;
pub mod mock;
pub mod ops;
pub mod bus;
pub mod table;
pub mod host;
pub mod context;
pub mod config;
