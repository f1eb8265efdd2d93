//! A minimal desktop-application shell: a command-invocation bridge that
//! exposes a fixed set of native-OS capabilities (file dialogs, file-byte
//! reads, OS notifications, a tray update) to a front-end UI.
//!
//! The library holds the bridge's logic: the result records, each command's
//! decision from request to native action and from native outcome to typed
//! response, and the application host's state machine. The native calls
//! themselves (presenting a dialog, reading a file, showing a notification,
//! running the event loop) stay outside the library and hand plain values in
//! and out.

pub mod dialog;
pub mod fs;
pub mod host;
pub mod notify;
