//! The decisions behind a one-triangle renderer: what is drawn, when the
//! window owner stops, and which command the render worker issues next.
//!
//! Nothing here touches a window or a GPU. The caller performs each command
//! and reports back what happened; every answer of the library is stated in
//! its contract.

pub mod input;
pub mod owner;
pub mod owner_runs;
pub mod scene;
pub mod viewport;
pub mod worker;
pub mod worker_runs;
