//! A safety layer over an embedded Ruby interpreter's native extension API.
//!
//! The crate gates access to the interpreter on the state of the calling
//! thread, wraps interpreter values in types that are only ever built after
//! the value's runtime type tag has been checked, and keeps the protocol by
//! which the collector traces and reclaims native structs.
//!
//! Nothing in here talks to the interpreter. Every function takes what the
//! interpreter answered as a plain value, so each rule is stated, and proved,
//! for every answer the interpreter can give.

pub mod error;
pub mod r_file;
pub mod r_match;
pub mod ruby_handle;
pub mod try_convert;
pub mod typed_data;
pub mod value;

pub use error::Error;
pub use r_file::RFile;
pub use r_match::RMatch;
pub use ruby_handle::{GvlStateCache, RubyGvlState, RubyHandle, RubyUnavailableError};
pub use try_convert::TryConvert;
pub use typed_data::{CollectorEvent, Hook, Marker, SlotState};
pub use value::{Value, ValueType};
