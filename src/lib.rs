//! A small transport for typed records over UDP: one record per datagram,
//! with a concrete codec for records made of an id and a UTF-8 text, and
//! the state of a front end that sends records or listens for them.
pub mod app;
pub mod record;
pub mod text;
pub mod udp;
