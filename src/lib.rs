//! Semantic model extraction and span-addressable HTML markup for
//! declarative data-model schemas.
//!
//! A schema parser hands over the syntax tree of a schema text ([`ast`]);
//! the library resolves field types ([`field_type`]), extracts constraints
//! ([`constraints`]), relationships ([`relations`]) and block-attribute
//! classifications ([`attributes`]), assembles one semantic model per
//! declaration ([`model`]), and renders span-tagged HTML fragments
//! ([`markup`], [`highlight`]).
pub mod ast;
pub mod attributes;
pub mod constraints;
pub mod field_type;
pub mod highlight;
pub mod laws;
pub mod markup;
pub mod model;
pub mod relations;
pub mod text;
