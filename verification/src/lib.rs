//! Editable-document core of a plain-text editor: a buffer of styled lines,
//! a cursor model, and a greedy soft line-wrap layout engine, together with
//! the scroll-offset derivation that keeps the cursor visible.

pub mod clip;
pub mod cursor;
pub mod editor;
pub mod line;
pub mod text;
pub mod viewport;
pub mod widget;
pub mod wrap;
