//! A dynamic tracing runtime: probe providers registered once per process
//! with a tracing backend, a marshaler from typed probe arguments to the
//! backend's wire form, and a lazily resolved, cached provider slot.
pub mod args;
pub mod error;
pub mod generator;
pub mod backend;
pub mod provider;
pub mod recording;
pub mod registry;
