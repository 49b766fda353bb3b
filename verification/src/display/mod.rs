//! The live display's text.

pub mod live;
