//! Render-thread orchestration for an embedded web-content engine: the
//! resource registry and command executor of the GPU channel, the task
//! mailbox and frame-paced scheduler of the owner thread, the view registry
//! with its activity throttling, and the catalog of game items that shares
//! the process.

pub mod calls;
pub mod file;
pub mod gpu;
pub mod helper;
pub mod items;
pub mod js;
pub mod render;
pub mod view;
