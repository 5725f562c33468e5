pub mod common;
pub mod arrays;
pub mod map;
pub mod set;
pub mod list;
pub mod lang;
pub mod boxes;
pub mod format;
pub mod regex;
pub mod pattern;
pub mod threads;
pub mod seqs;
pub mod objects;
pub mod fields;
pub mod ordered;
pub mod misc;
pub mod bits;
pub mod collections;
pub mod sorting;
pub mod streams;
pub mod digits;
pub mod bignum;
pub mod texts;
pub mod scanner;
pub mod files;
pub mod shuffle;
pub mod props;
pub mod filestreams;
pub mod clock;
pub mod ready;
pub mod dispatch;
pub mod call;
pub mod laws;
