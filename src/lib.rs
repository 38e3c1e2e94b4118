//! Gamepad input state for a controller tester: a snapshot of control values
//! folded from raw change events, the branch decision of the stick-to-drive
//! mapping, the control panel's event log and gamepad selection, and the rows
//! of the graphics adapter summary.
pub mod gamepad_panel;
pub mod info_panel;
pub mod joints;
