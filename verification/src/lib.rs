pub mod anchors;
pub mod builder;
pub mod cipher;
pub mod client;
pub mod conn;
pub mod crypto;
pub mod error;
pub mod key;
pub mod kx;
pub mod msgs;
pub mod prf;
pub mod record_layer;
pub mod server;
pub mod sign;
pub mod suites;
pub mod vecbuf;
pub mod verify;
pub mod versions;
