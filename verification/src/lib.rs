//! Verified core of a single-use loopback server that captures an OAuth
//! redirect.
//!
//! The library decides; the embedding program performs. It renders the
//! redirect address, routes request URLs, serves two fixed pages, and drives
//! one capture session from its bind attempt to the single hand-over of the
//! captured URL. Sockets, threads and the event bus stay with the caller, who
//! feeds the session with what happened and carries out the effects it names.

pub mod config;
pub mod lifecycle;
pub mod pages;
pub mod route;
pub mod session;
pub mod signal;
pub mod text;
pub mod trace;

pub use config::{get_oauth_redirect_uri, is_mobile_platform, CaptureConfig, Platform};
pub use lifecycle::{start_oauth_server, Launch, LifecycleController, SessionError};
pub use pages::{Page, PageResponse};
pub use session::{CaptureSession, Effect, ListenerEvent, Phase, Topic};
pub use signal::{CompletionSignal, Outcome};
