//! A polymorphic child-content abstraction for a reactive UI rendering
//! layer: the [`Child`] value model (everything that can appear as the
//! child content of a UI element) and the [`IntoChild`] conversion
//! protocol that normalizes arbitrary application values into it.

pub mod child;
pub mod convert;
pub mod node;
pub mod text;

pub use child::Child;
pub use child::ReactiveCell;
pub use convert::IntoChild;
pub use convert::Scope;
pub use node::Node;
