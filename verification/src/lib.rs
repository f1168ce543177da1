//! Core logic of the Utah desktop shell: dev-server discovery, the tray icon
//! bitmap, the IPC protocol between the web UI and the native worker, and the
//! decisions of the window event loop.

pub mod text;
pub mod probe;
pub mod icon;
pub mod resolve;
pub mod ipc;
pub mod bridge;
pub mod update;
pub mod shell;
