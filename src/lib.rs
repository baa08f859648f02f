//! Request-processing core of a Markdown preview service: size validation,
//! rendering through a CommonMark renderer, theme wrapping, structured log
//! events and the health report.
pub mod digits;
pub mod events;
pub mod handler;
pub mod render;
pub mod theme;
pub mod validate;
