//! Service bridging for robots that reach each other over a global data plane.

pub mod discovery;
pub mod dtls;
pub mod encoding;
pub mod exchange;
pub mod gdp;
pub mod kvs;
pub mod manager;
pub mod payload;
pub mod protocol;
pub mod sessions;
pub mod signaling;
pub mod text;
pub mod tls;
pub mod topics;
