//! Per-frame rendering orchestration and orientation-gizmo interaction state,
//! written as verified decision logic: surface lifecycle decisions (skip
//! zero-sized frames, retry outdated acquisitions), the per-frame GPU command
//! schedule with its texture-delta ordering, and the persistent rotation
//! state that the gizmo widget reads and writes each frame.

pub mod frame;
pub mod gizmo;
pub mod rotation;
pub mod surface;
