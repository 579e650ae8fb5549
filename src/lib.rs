//! Orchestration of an in-process overlay: the per-window render pipeline,
//! the relay of window messages into it, the lifecycle of each backend
//! adapter, and the ordered application and removal of the hooks.

pub mod fence;
pub mod hudhook;
pub mod lifecycle;
pub mod message;
pub mod mh;
pub mod pipeline;
pub mod relay;
pub mod util;
