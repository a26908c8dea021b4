//! Classification of code points as CJK (Chinese, Japanese and Korean scripts,
//! symbols and compatibility forms) against a fixed table of inclusive ranges.

pub mod classify;
pub mod ranges;

pub use classify::{code_point_is_cjk, is_cjk};
