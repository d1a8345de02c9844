pub mod debug_loc;
pub mod editor;
pub mod ts_compiler;
pub mod hex;
