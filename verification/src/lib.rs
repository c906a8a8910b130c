//! Verified core of the zwasm SDK: the decisions that the safe wrappers make
//! around each call into the zwasm C API.
//!
//! A value that the runtime hands back as a pointer is held here as its address
//! (`usize`), with `0` standing for a null pointer. The calls themselves, and the
//! ownership of the native objects, live with the code that links the runtime.
pub mod config;
pub mod construction;
pub mod engine;
pub mod error;
pub mod ffi;
pub mod func;
pub mod global;
pub mod imports;
pub mod instance;
pub mod memory;
pub mod module;
pub mod store;
pub mod table;
pub mod utils;
pub mod val;
pub mod wasi;

pub use config::Config;
pub use error::{Error, ZwasmError};
pub use imports::Imports;
pub use module::Module;
pub use wasi::WasiConfig;
