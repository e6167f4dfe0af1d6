//! Classification of resource statuses into a small fixed vocabulary, with
//! the text predicates it rests on and the failures of the host boundary.

pub mod boundary;
pub mod status;
pub mod text;

pub use boundary::{series_comparable, BoundaryError, Operand};
pub use status::{
    apply_rules, classify, classify_lowered, shape_resource_status, ResourceShape, Rule,
    StatusLabel,
};
