//! A cross-platform command bridge for fullscreen stream playback.
//!
//! A host issues abstract playback commands; the bridge validates each one and
//! routes it to the backend that was resolved, once, for the running platform:
//! a desktop stub, the Android bridge into the managed runtime, or a native
//! binding.

pub mod android;
pub mod commands;
pub mod desktop;
pub mod error;
pub mod mobile;
pub mod models;
pub mod resolver;
pub mod wire;

pub use error::{Error, ErrorKind};
pub use models::{
    CommandResponse, PingRequest, PingResponse, PingValue, PlayFullscreenRequest,
    PlayFullscreenValue,
};
pub use resolver::{
    init, Backend, BackendHandle, Dispatch, NativeCounterpart, Platform, PlatformResolver, Routed,
};
pub use wire::{Payload, WireField, WireValue};
