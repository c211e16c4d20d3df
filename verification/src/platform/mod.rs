//! What the library makes of the text and values that the operating system
//! gives: the parsing and the decisions behind each collector.
pub mod linux;
pub mod windows;
