//! A tiling window manager's verified core: screen geometry, the column
//! layout of the managed windows, the choice of which windows to manage,
//! window-style arithmetic and the low-level keyboard hook's state machine.

pub mod math;
pub mod layout;
pub mod selection;
pub mod winapi;
