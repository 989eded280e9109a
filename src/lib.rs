pub mod action;
pub mod ffi;
pub mod generator;
pub mod laws;
pub mod macros;
pub mod mode;
pub mod pages;
