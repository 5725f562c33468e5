pub mod error;
pub mod frame;
pub mod heap;
pub mod jvm;
pub mod method;
pub mod value;
