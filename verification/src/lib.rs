//! A log-relay core: a bounded hand-off queue feeding a broker egress engine,
//! with TLS material loading, per-outcome delivery metrics, and live-connection
//! accounting.

pub mod conn_counter;
pub mod kafka;
pub mod metrics;
pub mod serve_tls;
