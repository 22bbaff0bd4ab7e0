pub mod laws;
pub mod render;
pub mod source;
pub mod state;
