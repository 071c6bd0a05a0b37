//! Decoder for the physical tables stream of ECMA-335 metadata: the stream
//! header with its per-heap index widths and per-table row counts, the
//! variable-width coded-index scheme, and the row layout engine that turns a
//! byte buffer into typed row records.

pub mod error;
pub mod reader;
pub mod header;
pub mod coded;
pub mod rows;
