//! UTF-8 nul-terminated strings, the value conversions of the FMOD bindings,
//! the decisions of FMOD's string queries, and the report logic of the
//! binding-coverage tool.

pub mod bytes;
pub mod core_enums;
pub mod coverage;
pub mod cstr;
pub mod cstring;
pub mod flags;
pub mod index_collections;
pub mod patterns;
pub mod string_query;
pub mod studio_enums;

pub use core_enums::SpeakerMode;
pub use cstr::{FromBytesUntilNulError, FromBytesWithNulError, FromUtf8UntilNul, FromUtf8WithNul, Utf8CStr};
pub use cstring::{FromOwnedUtf8WithNul, FromVecWithNulError, NulError, Utf8CString};
pub use flags::{DebugFlags, MemoryFlags};
pub mod callbacks;
