//! Cross-process module injection: the decisions of the injection engine, the
//! process locator and the image parser, verified. The operating-system calls
//! themselves are performed by the caller, who runs the engine's actions and
//! hands back their replies.
pub mod config;
pub mod engine;
pub mod error;
pub mod image;
pub mod laws;
pub mod locator;
pub mod os;
