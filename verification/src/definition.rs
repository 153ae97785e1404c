//! The global definitions of a trace: their records, the callbacks that
//! decode them and the consumers that receive them.
pub mod defs;
pub mod global_reader_callbacks;
pub mod registry;
pub mod reported;
pub mod text;
pub mod visitor;

pub use defs::Definition;
pub use defs::DefinitionKind;
pub use global_reader_callbacks::DefinitionList;
pub use global_reader_callbacks::GlobalDefReaderCallbacks;
pub use registry::AttributeRegistry;
pub use registry::LocationRegistry;
pub use registry::StringRegistry;
pub use visitor::DefinitionVisitor;
pub use visitor::DefinitionVisitorMultiplexer;
