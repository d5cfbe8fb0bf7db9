//! Field accessors ("lenses"): a getter and a setter that address one field
//! of a container, and their composition into accessors for nested fields.
//!
//! `AccessorPair` describes its field by a reader and a writer in spec code,
//! and every implementation proves the lens laws over them. `FnPair` pairs two
//! callables and gives what their own contracts give.
pub mod accessor;
pub mod composed;
pub mod fern;
pub mod fn_pair;
pub mod laws;

pub use accessor::AccessorPair;
pub use composed::Composed;
pub use fern::{Fern, FernSpecies, PottedFern, PottedFernFern};
pub use fn_pair::{field_accessors, FnPair};
