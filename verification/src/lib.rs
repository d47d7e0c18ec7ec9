//! A parser for preprocessed C source text.
//!
//! The library turns preprocessed C text into an abstract syntax
//! tree, disambiguating the grammar with a scope-aware symbol
//! environment, and maps byte offsets in the text back to original
//! source locations by reading preprocessor line markers.

pub mod ast;
pub mod driver;
pub mod env;
pub mod loc;
pub mod parser;
