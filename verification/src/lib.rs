//! Verified core of a desktop tray shell.
//!
//! The host toolkit delivers tray and window events; this crate decides, for
//! each event, which commands go back to the toolkit, and proves what those
//! commands do to the main window and to the process.
//!
//! - [`menu`]: the five menu items, their identifiers and labels, the layout.
//! - [`event`]: the events that the toolkit delivers.
//! - [`command`]: the requests that answer them, and what a refusal means.
//! - [`router`]: the table from events to commands.
//! - [`host`]: a model of process and window, and the guarantees proved on it.
//! - [`backend`]: the backend's addresses and the reply to a status request.
//! - [`text`]: comparison of string slices.
//!
//! Nothing here touches the toolkit, the network or the operating system: the
//! caller carries out the commands and reports what the outside world did.

pub mod backend;
pub mod command;
pub mod event;
pub mod host;
pub mod menu;
pub mod router;
pub mod text;
