//! Development-server core for a cross-platform UI project: change filtering,
//! build-status bookkeeping, per-platform build dispatch and process-handle
//! lifecycle, all stated and proved here. The surrounding binary performs the
//! actual terminal, filesystem and process work and feeds results back in.

pub mod animation;
pub mod commands;
pub mod components;
pub mod config;
pub mod dev_server;
pub mod errors;
pub mod event;
pub mod layout;
pub mod navigation;
pub mod platform;
pub mod process;
pub mod status;
pub mod store;
pub mod style;
pub mod watch_filter;
pub mod window;

pub use dev_server::DevServer;
pub use event::{Key, KeyCode};
pub use layout::{Breakpoint, Layout};
pub use platform::Platform;
pub use status::BuildStatus;
pub use style::TextAlign;
pub use window::Orientation;
