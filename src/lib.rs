//! Transport and decoding layer for a volume's change journal: the versioned
//! journal descriptors, the versioned read requests, and the classification
//! of the results of the two device control calls.

pub mod codec;
pub mod error;
pub mod journal_data;
pub mod read_request;
pub mod channel;
