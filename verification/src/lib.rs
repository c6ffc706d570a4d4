//! The device side of the companion protocol of a bird-monitoring station.
//!
//! A paired client connects over a reliable byte stream and asks for the
//! number of sightings, for the latest one, or for a small picture of one.
//! This crate holds the rules of that exchange: the messages and their wire
//! form, the log of sightings, the picture's text form, the life of one
//! connection and the life of the service. Reading, writing and the radio are
//! left to the caller, who performs what the state machines here ask for.

pub mod connection;
pub mod dispatch;
pub mod json;
pub mod message;
pub mod server;
pub mod store;
pub mod text;
pub mod thumbnail;

pub use connection::{Action, Connection, Event, Notice, Step};
pub use message::{Message, Sighting};
pub use server::{Command, Server, Signal};
pub use store::SightingsStore;
