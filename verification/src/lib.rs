//! A multi-core publish/subscribe notification framework.
//!
//! Each core is an isolated triad of [`mvc::Model`], [`mvc::View`] and
//! [`mvc::Controller`], identified by a string key. Observers are bound to
//! named notifications and notified in registration order; the controller
//! bridges one observer per notification name to a table of command
//! factories. Every registry is an owned value whose behaviour is stated
//! over a mathematical model and proved.
pub mod interfaces;
pub mod mvc;
pub mod patterns;
