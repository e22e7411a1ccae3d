//! Metadata, path resolution and fetch/cache decisions of a bot-driven media
//! relay: attachments posted to a messaging platform are recorded, and their
//! content is served again under stable public URLs.
//!
//! - [`file`]: the record of one attachment, and the records of a message.
//! - [`d1`]: the metadata store, its statements and the saving of a batch.
//! - [`tg`]: escaping, download URLs, the path resolver, the handling of
//!   inbound updates.
//! - [`handler`]: the serving of a request through edge cache, blob store and
//!   download, with the one repair of a stale path.
//! - [`machine`]: runs of step functions, and how to bound what they ask for.
//! - [`consolelog`]: what the console logger writes.
//! - [`error`], [`text`]: failures, and helpers on strings.
//!
//! Everything that touches the outside world is a step function: it takes
//! what the world reported and says what to do next. The caller does it.

pub mod consolelog;
pub mod d1;
pub mod error;
pub mod file;
pub mod handler;
pub mod machine;
pub mod text;
pub mod tg;
