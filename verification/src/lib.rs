//! Dart binding generation for UniFFI component interfaces.
//!
//! The library decides every name, type label, converter class and text
//! fragment that the generated Dart source is made of, over a plain model of
//! the component interface.
pub mod fixtures;
pub mod gen;
pub mod stream_export;
pub mod testing;
