//! A typed boundary between foreign callers and an exchange-message engine.
pub mod boundary;
pub mod encode;
pub mod firewall;
pub mod market_type;
pub mod request;
pub mod text;
