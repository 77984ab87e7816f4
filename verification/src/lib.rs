//! Typed access to a Graphviz layout engine hosted by the JavaScript runtime.
//!
//! The engine itself is a black box. This crate owns the boundary: the shape
//! checks on every value that comes back from the engine, the two classes of
//! failure, and the order of the steps that bring an engine instance up.

pub mod bootstrap;
pub mod engine;
pub mod fault;
pub mod foreign;
pub mod marshal;
pub mod options;

pub use options::Options;
pub use engine::{Viz, VizInstance};
pub use fault::{BindingFault, Capability, RenderError};
