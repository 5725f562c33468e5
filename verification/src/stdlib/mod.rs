pub mod base64;
pub mod host;
pub mod io;
pub mod lang;
pub mod math;
pub mod numtext;
pub mod regex;
pub mod util;
