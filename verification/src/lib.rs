//! A terminal previewer for notebook documents: a JSON file holding an
//! ordered list of cells is parsed into a strict in-memory model and
//! rendered as line-numbered text, plainly or with syntax highlighting.

pub mod ansi;
pub mod highlight;
pub mod json;
pub mod lang;
pub mod laws;
pub mod model;
pub mod parse;
pub mod render;
pub mod text;
