//! Framing, tracking, and nearest-entity selection for a byte-oriented
//! aircraft-surveillance feed.
//!
//! Bytes from a serial source are reassembled into fixed-length message
//! windows ([`accumulator`]), each complete window is handed to the external
//! decoder ([`frame`]), decoded messages keep a table of tracked entities
//! current ([`table`]), and every cycle the nearest in-range entity is
//! selected ([`select`]) and its position mapped to one of four directional
//! outputs ([`geo`]). [`pipeline`] ties the pieces into one orchestration
//! object; [`bridge`] holds the payload logic of the companion line-oriented
//! forwarder that feeds the serial port in non-hardware deployments.

pub mod accumulator;
pub mod bridge;
pub mod frame;
pub mod geo;
pub mod pipeline;
pub mod select;
pub mod table;
