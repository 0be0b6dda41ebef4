[package]
name = "document_store"
version = "0.1.0"
edition = "2021"
publish = false

[dependencies]
include_dir = "=0.7.4"
log = "=0.4.34"
rusqlite = { version = "=0.40.2", default-features = false, features = ["blob"] }
rusqlite_migration = { version = "=2.6.0", features = ["from-directory"] }
tauri = { version = "2", default-features = false }
