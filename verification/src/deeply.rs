//! The outer of two nested modules.

pub mod nested;
