//! Live pen and stylus input, folded into a small pollable snapshot.
//!
//! A digitizer driver delivers asynchronous notifications in a wide,
//! vendor-defined vocabulary. This library validates each notification's
//! origin, translates it into a small canonical event vocabulary, folds the
//! events into an always-consistent snapshot of the current stylus state,
//! and hands each event to the registered observer. Binding the handle to
//! the platform's stylus subsystem and the delivery loop itself live outside
//! the library; they feed it plain values and read plain values back.

use vstd::prelude::*;

pub mod events;
pub mod observer;
pub mod state;
pub mod tablet;

pub use events::RawNotification;
pub use events::WinTabEvent;
pub use events::translate;
pub use observer::EventLog;
pub use observer::TabObserver;
pub use state::SharedState;
pub use tablet::EasyTabOptions;
pub use tablet::EasyTablet;
pub use tablet::WinTabletIndex;

verus! {

/// Why an operation against the stylus subsystem failed, or why a delivered
/// notification was refused.
#[derive(Clone, Debug, PartialEq, Eq)]
pub enum EasyTabError {
    /// The platform refused to produce or bind a connection, with its own
    /// account of the refusal.
    Init(String),
    /// The platform refused a request to start or stop delivery, with its
    /// own account of the refusal.
    Enable(String),
    /// A delivered notification claimed an origin other than the bound
    /// connection. The binding layer broke its contract; the notification
    /// was not applied.
    ProtocolFault,
}

pub type EasyTabResult<T> = core::result::Result<T, EasyTabError>;

} // verus!
