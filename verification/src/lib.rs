//! Safe reading of OTF2 traces: the layer between the callback-driven native
//! reader and an owner of typed definitions and events.
//!
//! The native engine itself is reached by the program that links it. This
//! library holds what that program must decide: when a handle is live, which
//! status ends an operation, how a tagged payload is decoded, in which order
//! records reach their consumers, and when a batch has to be read.
pub mod archive;
pub mod attribute;
pub mod definition;
pub mod display;
pub mod error;
pub mod event;
pub mod handle;
pub mod native;
pub mod reader;
pub mod visitor;
