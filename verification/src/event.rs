//! The events of a trace: their records, the callbacks that decode them and
//! the consumers that receive them.
pub mod event_struct;
pub mod global_reader_callbacks;
pub mod visitor;

pub use event_struct::Event;
pub use event_struct::EventData;
pub use event_struct::EventKind;
pub use event_struct::EventType;
pub use global_reader_callbacks::GlobalEvtReaderCallbacks;
pub use visitor::EventVisitor;
pub use visitor::EventVisitorMultiplexer;
