//! A checked layer over an embedded analytical engine that is reached through a C
//! interface. Every engine call is prepared here as a plain request (arguments encoded
//! as nul-terminated byte strings, handles as addresses), and every answer of the engine
//! (a session address, a result address, a status code) is turned back into a value or a
//! structured error. The calls themselves are made by the caller, which hands the engine's
//! answers back in.

pub mod arrow_stream;
pub mod c_string;
pub mod connection;
pub mod error;
