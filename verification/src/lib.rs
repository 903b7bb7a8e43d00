//! Core logic of a minimal desktop-application shell: the greeting command
//! and the decision logic of the autolaunch toggle command. The host
//! framework wiring (window creation, plugin registration, the run loop)
//! lives outside the library.

pub mod autolaunch;
pub mod greeting;
