//! Client logic for the binary control protocol of LEDENET ("Magic Home")
//! Wi-Fi RGB controllers: frame encoding with checksum, status decoding,
//! colour payloads, the controller state machine, and a configurable log
//! level filter.
pub mod codec;
pub mod color;
pub mod logger;
pub mod magic_home;
pub mod output;
