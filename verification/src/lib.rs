//! Verified core of a safe binding over a closed-source, dynamically loaded
//! game-platform runtime.
//!
//! The native runtime exposes a C ABI: a versioned creation entry point, a
//! closed enumeration of result codes, a log hook, and asynchronous
//! completion callbacks that are delivered synchronously while the host
//! application pumps the runtime once per frame.
//!
//! This crate holds the parts of that binding that are plain logic, and
//! proves them: translation of native result codes into recoverable errors,
//! the log-hook decoding rules, the creation-parameter record with its
//! fixed version constants, the single-shot callback protocol (each
//! accepted context is delivered exactly once, or reclaimed on early
//! synchronous failure and delivered never), and the per-category event
//! fan-out queues with independent cursor-based readers. The unsafe calls
//! into the native runtime itself cannot be verified; an unverified driver
//! performs them and feeds their outcomes (result codes, event
//! notifications) to the functions of this crate, which decide everything
//! else.

pub mod callback;
pub mod channel;
pub mod discord;
pub mod error;
pub mod event;
pub mod event_handler;
pub mod image;
pub mod logging;

pub use callback::CallbackRegistry;
pub use discord::{CreateFlags, CreateParams, Discord};
pub use error::{DeveloperViolation, Error};
pub use event::{Action, Event, EventCategory};
pub use event_handler::{EventHandler, HandlerCall};
pub use image::{Image, ImageHandle};
pub use logging::{LogBody, LogLevel, LogRecord};
