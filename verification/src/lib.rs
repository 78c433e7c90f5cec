//! Printer status model and change detection by polling.
//!
//! A printer is polled again and again; each poll gives a snapshot of its
//! state.  The crate compares each snapshot with the one before and says
//! which properties changed, for one printer or for several at once.  It
//! runs no queries itself: callers fetch the snapshots from the platform
//! service that they use, hand them in, and get back what is to be reported.

pub mod backend;
pub mod change;
pub mod clock;
pub mod error;
pub mod group;
pub mod monitor;
pub mod printer;
pub mod status;
pub mod text;

pub use backend::{LinuxBackend, WindowsBackend};
pub use change::{PrinterChanges, PropertyChange};
pub use clock::Timestamp;
pub use error::PrinterError;
pub use group::{MonitorGroup, TaskEnd};
pub use monitor::{Lookup, MonitorableProperty, PrinterMonitor, PrinterSummary, StatusReport};
pub use printer::{Printer, Win32Printer, WmiStatusCodes};
pub use status::{ErrorState, PrinterState, PrinterStatus};
