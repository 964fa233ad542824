//! A single-writer, multi-reader key-value store whose transactions work on
//! copy-on-write clones of the whole database tree.
//!
//! This crate holds the logic of the store: the generation protocol that
//! decides which on-disk root is read and which is written, the arena of
//! tables opened by a transaction, the file-name encoding of keys, the cursor
//! state machine, and the policy that turns raw I/O outcomes into results.
//! The I/O itself (files, the ordered index, snapshots, locks) is done by the
//! embedding program, which feeds the outcomes back into these functions.

pub mod codec;
pub mod cursor;
pub mod database;
pub mod error;
pub mod table;
pub mod transaction;

pub use codec::{encode_key, key_from_hex_bytes};
pub use cursor::{Cursor, CursorView};
pub use database::{BeginAction, CommitAction, Generation, Versions};
pub use error::Error;
pub use table::{TableId, TableList};
pub use transaction::{creation_result, lookup_result, opening_result, removal_result, IoFailure};
