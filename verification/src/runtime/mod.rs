//! The Elm-style core of the TUI: the model (which screen is showing and
//! what it holds), the pure `update` that folds a message into the model and
//! names the side effect to run, and what the views show.
pub mod laws;
pub mod model;
pub mod update;
pub mod view;

pub use crate::runtime::model::{App, Cmd, Msg, Overlay, Screen, SessionState, StreamMsg};
pub use crate::runtime::update::update;
