//! A minimal client library for a remote historical blockchain-data service.
//!
//! The library builds the request URLs for the service's two read-only
//! endpoints and decodes their JSON responses into typed values.  The
//! HTTP round trip itself is asynchronous I/O and lives outside the
//! library; callers hand the response body back in as a string.

mod decimal;
mod outside;
mod client;

pub use client::Block;
pub use client::ClientError;
pub use client::HistoricalClient;
pub use client::block_from_parts;
pub use client::block_has_fields;
pub use client::decode_block;
pub use client::decode_block_response;
pub use client::decode_transaction;
pub use client::decode_transaction_response;
pub use client::spec_block_url;
pub use client::spec_transaction_url;
pub use decimal::dec_str;
pub use outside::block_fields_of;
pub use outside::json_parses;
