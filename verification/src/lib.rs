pub mod envelope;
pub mod input;
pub mod process;
pub mod text;
pub mod window;
