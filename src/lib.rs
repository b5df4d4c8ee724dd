//! A client runtime core for the Chrome DevTools Protocol spoken over a pipe:
//! message correlation, event dispatch, the page-to-host binding bridge and
//! the launch configuration of the browser.

pub mod json;
pub mod protocol;
pub mod binding;
pub mod session;
pub mod window;
pub mod commands;
pub mod builder;
pub mod error;

pub use binding::BindingCall;
pub use builder::{Content, UIBuilder};
pub use error::JSError;
pub use json::{JSObject, Json};
pub use session::{Dispatch, JSResult, Session};
pub use window::{Bounds, WindowState};

