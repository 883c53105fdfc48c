//! Core of a game launcher's task-queue subsystem.
//!
//! The library models the queue of long-running install/update jobs: one
//! active task at a time, a FIFO pending list, a per-game status mapper, and
//! the controller that processes enqueue and refresh signals. All I/O (the
//! per-game updaters, the periodic trigger's thread, the user interface)
//! lives outside; the controller receives probe reports as plain values and
//! its behaviour is verified for every possible report.

pub mod error;
pub mod fifo;
pub mod games;
pub mod i18n;
pub mod poller;
pub mod progress;
pub mod queue;
pub mod status;
pub mod task;
