//! Core of a command-line client for a public-transit open-data service.
//!
//! The library builds the requests sent to the service, decodes its JSON
//! answers into a typed model, decides how an ambiguous stop search is
//! resolved, and turns departures and trip patterns into display records.
//! Sending requests and talking to the terminal is left to the caller.
pub mod decode;
pub mod encode;
pub mod flow;
pub mod json;
pub mod model;
pub mod render;
pub mod request;
pub mod select;
pub mod text;
pub mod time;
