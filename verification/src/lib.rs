//! Decoder for the heap-dump segment of the HPROF binary snapshot format.
//!
//! A segment is a length-delimited byte region holding a sequence of tagged
//! sub-records: GC roots, class metadata, instance and array dumps. The format
//! carries no sub-record count or offset index, so the decoder must consume
//! exactly the right number of bytes for each sub-record to find the next tag
//! byte. Every decoder here returns the byte count it consumed, and its
//! contract ties that count to a layout function over the raw bytes.

pub mod decoder;
pub mod error;
pub mod laws;
pub mod layout;
pub mod reader;
pub mod tags;
