//! Typed, reflective field access for record types.
//!
//! A record advertises a selector type (one case per reflection-visible
//! field) and a value-carrier type (one case per distinct field type).
//! `set_field` routes a (selector, carrier) pair to the right field write,
//! rejecting wrong-typed values with a structured error; `get_field` reads
//! a field back out as a carrier value.
//!
//! The companion types themselves are described by a schema-driven
//! emitter: [`schema`] models a record declaration and [`emit`] computes
//! the selector cases, carrier cases, conversion laws and dispatch arms
//! that the companion pair consists of; [`render`] writes the two enum
//! declarations out as source text. [`sample`] carries a worked example
//! of the whole surface, with the conversion and dispatch laws proved on
//! it.

pub mod emit;
pub mod error;
pub mod fielded;
pub mod render;
pub mod sample;
pub mod schema;
pub mod text;

pub use error::ErrSpec;
pub use error::SetFieldError;
pub use fielded::Fielded;
