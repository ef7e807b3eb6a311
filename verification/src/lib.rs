//! Inspection of a script file: its interpreter line, its body, and the
//! permission bits that mark it executable.

pub mod elevation;
pub mod mode;
pub mod sfile;
pub mod text;
