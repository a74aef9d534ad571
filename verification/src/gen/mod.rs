//! Generation of Dart bindings from a component-interface model.
pub mod callback_interface;
pub mod code_types;
pub mod compounds;
pub mod enums;
pub mod functions;
pub mod interface;
pub mod naming;
pub mod objects;
pub mod order;
pub mod primitives;
pub mod records;
pub mod registered;
pub mod registry;
pub mod render;
pub mod text;
pub mod types;
pub mod walk;
pub mod wrapper;
