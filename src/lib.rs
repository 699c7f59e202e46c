//! Client-side core of a graph-database driver: a canonical binary codec for
//! text values, the transaction life cycle with its causal bookmarks, and a
//! pull-based record stream.

pub mod errors;
pub mod stream;
pub mod string;
pub mod txn;
pub mod version;
pub mod wire;

pub use errors::Error;
pub use stream::{Pull, RecordStream};
pub use string::{BoltString, LARGE, MEDIUM, SMALL, TINY};
pub use txn::{begin_request, BeginRequest, CommitReply, Operation, Reply, Transaction, TxnState};
pub use version::Version;
