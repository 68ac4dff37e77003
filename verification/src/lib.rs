//! A file-generation core: a string-keyed render context, a generator that
//! compiles a directory of templates and renders one of them for a chosen
//! destination under a project root, and the structured errors both can
//! return.  The filesystem write of a rendered file is left to the caller,
//! who receives the full text and the resolved destination path.

pub mod context;
pub mod engine;
pub mod errors;
pub mod generator;
pub mod paths;

pub use crate::context::RenderContext;
pub use crate::errors::ConstructionError;
pub use crate::errors::RenderError;
pub use crate::generator::Generator;
pub use crate::generator::assemble_output;
pub use crate::generator::RenderedOutput;
