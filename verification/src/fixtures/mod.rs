//! The logic of the example crates that bindings are generated for.
pub mod proc_macro;
pub mod simple_iface;
pub mod benchmarks;
pub mod custom_types;
pub mod callbacks;
pub mod enum_types;
pub mod large_error;
pub mod dart_async;
