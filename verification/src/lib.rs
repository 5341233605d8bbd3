//! A typed, fallible interface over the two native control interfaces of a
//! managed runtime: the tooling interface (capabilities, events,
//! introspection) and the object-interop interface.

pub mod capabilities;
pub mod class;
pub mod emulator;
pub mod environment;
pub mod error;
pub mod event;
pub mod event_handler;
pub mod mem;
pub mod method;
pub mod native;
pub mod object;
pub mod runtime;
pub mod thread;
pub mod util;
pub mod version;
