//! Data input models for Citum references, citations, and bibliographies.
pub mod accessors;
pub mod bibliography;
pub mod citation;
pub mod classes;
pub mod contributor;
pub mod conversion;
pub mod date;
pub mod fields;
pub mod identifier;
pub mod legacy;
pub mod reference;
pub mod relation;
pub mod text;
pub mod types;
