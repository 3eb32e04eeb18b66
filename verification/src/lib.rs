//! Renders an animated, GPU-shaded background onto every configured display
//! output of a Wayland session, and keeps running across transient GPU
//! driver failures.
//!
//! This crate holds the verified core: the per-output render-session
//! lifecycle, the output registry that answers window-system events, the
//! frame-uniform protocol, and the supervisor's restart policy. The window
//! system and GPU themselves are collaborators: the registry's decisions
//! come back as explicit action lists for an unverified shell to perform.

pub mod action;
pub mod color;
pub mod color_ramp;
pub mod configuration;
pub mod registry;
pub mod session;
pub mod supervisor;
pub mod uniform;
