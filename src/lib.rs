//! The display-mode state of the application's "View" menu.
//!
//! Two checkable menu entries, one per [`DisplayMode`], are kept mutually
//! exclusive by a [`DisplayModeController`]. The controller is driven from two
//! sides: clicks on the native menu, which also produce a notification for the
//! embedded web content, and sync requests coming from that content, which
//! produce none. The native widgets themselves live with the host shell, which
//! copies the controller's checked states onto them after every transition.

use vstd::prelude::*;

pub mod controller;
pub mod mode;

pub use mode::DisplayMode;
pub use controller::{DisplayModeController, Notification, Toggles};
