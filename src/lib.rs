//! Field-name reflection for named-field records: reads a record declaration
//! and its per-field `field_names(...)` annotations, keeps the fields that are
//! not skipped, and renders an impl block with two aligned constant arrays.
pub mod annotation;
pub mod emit;
pub mod laws;
pub mod model;
pub mod receiver;

pub use annotation::{field_options, FieldOptions};
pub use emit::derive_field_names;
pub use model::{
    AnnotationError, Attr, AttrArgs, Body, DeclInput, DeriveError, FieldInput, Lit, MetaItem,
    ShapeKind,
};
pub use receiver::{Receiver, ReceiverField};
