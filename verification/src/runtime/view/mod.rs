//! What the screens show, computed as styled text; drawing it on the
//! terminal happens at the program's edge.
pub mod canvas;
pub mod cursor;
pub mod geometry;
pub mod highlight;
pub mod markdown;
pub mod overlay;
pub mod prose;
pub mod spinner;
pub mod status;
pub mod style;
pub mod theme;
pub mod tool_card;
pub mod transcript;
pub mod workspace;

pub use crate::runtime::view::cursor::visual_cursor_pos;
pub use crate::runtime::view::highlight::highlight_code_block;
pub use crate::runtime::view::markdown::plain_lines;
pub use crate::runtime::view::spinner::spinner_frame;
pub use crate::runtime::view::tool_card::{
    render_tool_call_header, render_tool_result_body, render_tool_result_header, summarise_json,
    truncate_one_line,
};
