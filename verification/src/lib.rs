//! A registry of human-readable names: it maps the hash of a username to the
//! identity that owns it. Anyone may claim a free name; only the owner of a
//! name may move it to another key.

pub mod bucket;
pub mod event;
pub mod ident;
pub mod laws;
pub mod model;
pub mod registry;
pub mod table;

pub use event::{EditUsername, Error, Event, Register};
pub use ident::{NameKey, OwnerId};
pub use registry::UkeHumanDns;
