//! Target-triple parsing and crosstool-NG configuration emission.

pub mod lexer;
pub mod toolchain;
pub mod triple;
