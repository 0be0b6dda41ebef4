//! Verified decision logic for a local document store: bringing a database
//! schema to its latest version, pumping a file of any size into a
//! pre-allocated blob one chunk at a time, and fetching a document back.
//!
//! Nothing here performs I/O. The two operations that need the file system
//! and the database are state machines: a state names the next thing to do
//! (an *action*), the caller does it and says what came of it (an *event*).
//! `migration` and `import` hold the machines; `migration_model` and
//! `import_model` say what the database and the source file are expected to
//! do, and prove what the machines achieve against that.

pub mod documents;
pub mod error;
pub mod import;
pub mod import_model;
pub mod migration;
pub mod migration_model;
