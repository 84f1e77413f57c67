//! Analysis of the properties of an object or interface type: which accessor
//! and change-notification bindings a code emitter has to write for each
//! property, and every parameter those bindings need.
//!
//! The analysis is a function of plain values. For each property `input`
//! holds the declaration, the matching configuration records, and what the
//! services around the analysis answered: the names, the type, the
//! functions written by hand, the trampoline. `properties::analyze` turns a
//! list of such inputs into the accessors, the signal bindings and the
//! notices, and adds the symbols they need to `imports`. `model` says what
//! the result is, and `laws` what holds of every result.

pub mod bounds;
pub mod config;
pub mod env;
pub mod imports;
pub mod input;
pub mod laws;
pub mod library;
pub mod model;
pub mod properties;
pub mod ref_mode;
pub mod signals;
pub mod signatures;
pub mod text;
pub mod version;
