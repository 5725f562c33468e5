pub mod bytecode;
pub mod natives;
pub mod runtime;
pub mod stdlib;
pub mod text;
pub mod threading;

