//! Gated invocation of a number-printing Python script: a path is checked
//! against a fixed file-name rule before it may reach the interpreter, and
//! what the interpreter reports is mapped to a success or failure text.
pub mod path_rule;
pub mod invocation;
pub mod laws;
