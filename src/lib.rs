//! A process-wide service logger: a minimum-severity filter resolved once,
//! and a renderer that turns each admitted event into one line of colored
//! text or one JSON object.

pub mod severity;
pub mod text;
pub mod timestamp;
pub mod render;
pub mod pipeline;
