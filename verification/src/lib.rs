pub mod binary;
pub mod bytes;
pub mod curve;
pub mod errors;
pub mod format;
pub mod keys;
pub mod laws;
pub mod stream;
pub mod wire;
