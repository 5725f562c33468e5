pub mod checker;
