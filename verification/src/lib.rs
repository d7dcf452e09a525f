//! Discovery, control and event subscriptions for WeMo smart switches.
//!
//! The crate holds the protocol logic: what is sent, how replies are read,
//! and what is decided between two network operations. Sockets and timers
//! belong to the caller, which feeds their outcomes to the functions here.

pub mod addr;
pub mod error;
pub mod location;
pub mod netif;
pub mod parsing;
pub mod pattern;
pub mod retry;
pub mod soap;
pub mod ssdp;
pub mod state;
pub mod subscriptions;
pub mod switch;
pub mod text;
pub mod xml;

pub use crate::ssdp::DeviceSearch;
pub use crate::ssdp::SsdpResponse;
pub use crate::state::WemoState;
pub use crate::switch::{Switch, WemoResult};
