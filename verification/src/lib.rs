//! A request-processing pipeline: a chainable control-flow structure that
//! threads an evolving payload through a sequence of steps, short-circuiting
//! to an error response the moment any step fails, and otherwise rendering
//! the final payload as a success response.

pub mod application;
pub mod database;
pub mod laws;
pub mod pipeline;
