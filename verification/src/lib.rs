//! An upload facade: brokers large-file uploads from clients that hold no
//! backend credentials into an append-oriented object store. A client drives
//! a three-phase session - `start`, one or more `continue`, `finish` -
//! against this library's controller; the host process performs the actual
//! network calls and feeds their outcomes back in.

pub mod controller;
pub mod laws;
pub mod mime;
pub mod models;
pub mod store;
