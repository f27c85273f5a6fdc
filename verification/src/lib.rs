//! Tools for inspecting executable object files: decoding the fixed-layout
//! ELF file header from a raw byte buffer, and scanning a buffer for runs of
//! printable text.

pub mod elfheader;
pub mod render;
pub mod strings;
pub mod utils;
