//! A minimal connect-and-forward relay between a local byte stream and a
//! single outbound TCP endpoint.
//!
//! The crate holds the relay's logic: the port-argument rules of the
//! target, the connector state machine that retries name resolution and
//! connection with live status reporting, the relay loop's event decisions
//! over two fixed directions, the bounded chunk-transfer semantics, and
//! the self-erasing status-line encoding.
//! The surrounding process performs the actual system calls and feeds
//! their results back into these functions.

pub mod connector;
pub mod relay;
pub mod status;
pub mod target;
pub mod transfer;
