//! A schema-validation engine core: schema keywords are compiled into
//! specialized validator nodes, and each node answers both a fast boolean
//! check and a detailed enumeration of violations over the same compiled
//! state.

pub mod additional_properties;
pub mod compiler;
pub mod error;
pub mod exclusive_minimum;
pub mod laws;
pub mod model;
pub mod numeric;
pub mod pattern;
pub mod render;
pub mod type_keyword;
pub mod validator;
pub mod value;

pub use value::JsonValue;
pub use value::NumberValue;
pub use value::SpecValue;
