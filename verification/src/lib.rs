//! Chooses the browser profile for a URL or a profile name.
//!
//! The library decides; it neither reads the environment nor runs anything.
//! Its caller hands it the environment variables, the available dialog tools
//! and the configured profiles, runs what it is told to run, and hands back
//! what came of it.

pub mod chooser;
pub mod desktop_dialog;
pub mod dispatch;
pub mod environment;
pub mod launch;
pub mod pattern;
pub mod profiles;
pub mod text;
