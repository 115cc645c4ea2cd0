//! Parameter handling and command construction for the WhiteboxTools tool dialog.

pub mod text;
pub mod numeric;
pub mod json;
pub mod parameter;
pub mod tool;
pub mod dialog;
pub mod laws;
