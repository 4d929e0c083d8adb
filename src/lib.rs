//! The launcher buttons that a sidebar shows for the panels of the three docks.
//!
//! The library decides, from plain snapshots of the docks, which panels get a
//! button, in which group it stands, whether it shows the active state, what a
//! click does and which relocation entries its context menu offers.
pub mod dock;
pub mod sidebar;
