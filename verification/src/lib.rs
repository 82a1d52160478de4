//! Interactive syntax diagrams for the `macro_rules!` blocks of a documentation page.
//!
//! The crate is the engine behind a page widget: it decides whether a page
//! qualifies, builds one self-contained widget per macro block, and keeps the
//! rendered diagram of each widget in step with that widget's own options.
//! Everything here works on plain values. The document is described by
//! [`dom::Element`] trees, which a thin host adapter turns into real nodes.

pub mod dom;
pub mod error;
pub mod options;
pub mod page;
pub mod pipeline;
pub mod util;
pub mod widget;

pub use error::Error;
pub use options::{DiagramOptions, OptionKey};
pub use page::load;
