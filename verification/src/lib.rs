//! A Modbus RTU codec, and the settings and decisions of a TCP server.
//!
//! - [`frame`] holds the messages, [`pdu`] their bytes, [`wire`] the encodings that these are
//!   made of.
//! - [`scan`] finds frames in a stream of bytes, [`rtu`] turns them into messages and back.
//! - [`buffer`] says what is relied on of the buffers.
//! - [`server`] and [`coupler`] serve programs around the codec.
//! - [`laws`] says what callers get, call by call and from one call to the next.

pub mod buffer;
pub mod coupler;
pub mod error;
pub mod frame;
pub mod laws;
pub mod pdu;
pub mod rtu;
pub mod scan;
pub mod server;
pub mod wire;
