//! A grid-based virtual-workspace switcher.
//!
//! Workspaces are arranged in a dynamic `cols × rows` grid that grows on
//! demand as the user navigates past its current bounds.  One *virtual*
//! workspace spans all monitors: each monitor receives its own
//! window-manager workspace id, but all monitors are switched in unison.
//!
//! The crate is organised around two traits:
//!
//! * [`traits::WindowManager`] — abstracts workspace switching and window
//!   movement so the grid logic is not coupled to any specific compositor.
//! * [`traits::CommandSource`] — abstracts the transport that delivers
//!   user intent, so the main loop is not coupled to any IPC mechanism.
//!
//! Continuous quantities (gesture offsets, sensitivities, thresholds) are
//! carried as signed integers in thousandths of a unit, so that the whole
//! decision pipeline is exact integer arithmetic.

pub mod command;
pub mod config;
pub mod gestures;
pub mod grid;
pub mod switcher;
pub mod text;
pub mod traits;
pub mod wm_ipc;
