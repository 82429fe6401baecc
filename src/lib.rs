//! A local sr25519 keypair manager: seeds are kept one per line, in hex, in a
//! flat file, and an in-memory list is kept in step with that file.
pub mod codec;
pub mod wallet;
pub mod store;
pub mod app;
