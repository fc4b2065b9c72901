//! The logic of the mewcode terminal client: its screens and their state
//! machine, the folding of a streamed chat turn into history, canvas
//! navigation, and the text that the views show.
pub mod protocol;
pub mod canvas;
pub mod config;
pub mod memory;
pub mod net;
pub mod sort;
pub mod text;

pub mod runtime;
