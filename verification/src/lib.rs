//! A verified window/tray lifecycle controller for a background desktop
//! utility.
//!
//! The controller owns the application's visibility state: whether the main
//! window is shown or hidden, whether the process still runs, and whether the
//! OS activation policy (dock/taskbar presence) is "regular" or "accessory".
//! Host runtimes feed it launch arguments and events (tray menu selections,
//! window close requests, second-instance notifications); it answers with the
//! next state and the ordered list of best-effort requests the host must
//! perform.

pub mod launch;
pub mod laws;
pub mod lifecycle;
