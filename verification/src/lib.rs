//! A remote file accessed over HTTP, presented as a seekable, readable
//! stream.
//!
//! The verified heart is the read/seek state machine: cursor tracking,
//! lazy request issuance, partial-chunk buffering, seek coalescing and
//! bounded retry of transient stream errors. The network itself (issuing
//! the range requests and draining the chunk stream) is left to an
//! unverified driver that feeds the machine with events.

pub mod chunk;
pub mod file;
pub mod laws;
pub mod meta;

pub use file::HttpFile;
pub use file::ReadEvent;
pub use file::ReadPoll;
pub use file::ReadStep;
pub use file::SeekError;
pub use file::SeekFrom;
pub use file::SeekPoll;
pub use file::StreamFault;
pub use file::RETRY_LIMIT;
pub use meta::parse_content_length;
