# modbus_rtu

A Modbus RTU codec whose behaviour is stated in contracts and proved by Verus.

- `src/wire.rs`: big-endian words and packed coils.
- `src/frame.rs`, `src/pdu.rs`: requests and responses, and their bytes.
- `src/scan.rs`: finding frames in a stream of bytes, with the search of `modbus-core`.
- `src/rtu.rs`: the codecs of client and server.
- `src/buffer.rs`: what is relied on of the `bytes` crate.
- `src/server.rs`: settings and decisions of a TCP server.
- `src/coupler.rs`: the identification of a fieldbus coupler.
- `app/`: sockets, the event loop and the traits of `tokio_codec`.

The theorems about the library are the proof functions whose names start with `law_`.
