//! Platform-neutral request/result contract for native file and directory
//! selection dialogs.
//!
//! The crate models one dialog invocation as an immutable request value
//! (directory hint, extension filters, multi-select flag, target kind),
//! translates it into the argument grammar of whichever backend tool is
//! available, and interprets the backend's exit status and raw output bytes
//! as a selection, a cancellation, or a failure. Launching the external
//! process (or the platform's scripting bridge or native API) is left to the
//! embedding binary; everything that decides or computes lives here.

pub mod args;
pub mod backend;
pub mod decode;
pub mod dialog;
pub mod error;
pub mod pattern;
pub mod request;
