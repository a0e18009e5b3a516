//! Bindings around a typesetting engine: a structural JSON-to-native-value
//! converter, an options decoder, and a render entry point that compiles a
//! template with a data dictionary and exports it as PDF bytes.

pub mod convert;
pub mod engine;
pub mod json;
pub mod laws;
pub mod native;
pub mod options;
pub mod render;
