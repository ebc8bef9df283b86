//! What holds of every call of the library's functions, stated on the values that go in and
//! come out.

pub mod codec;
pub mod coupler;
pub mod exchange;
pub mod frame;
pub mod request;
pub mod response;
pub mod scan;
pub mod server;
pub mod wire;
