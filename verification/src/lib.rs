//! A safety-oriented layer over an OpenCL-style compute API.
//!
//! Raw driver handles are modelled as plain machine words so that the logic
//! built on top of them — program source and compiler-flag assembly, the
//! mapped-memory lifecycle, context-property packing, version parsing and
//! image-format tables — can be stated and verified precisely.  The driver
//! itself (enqueue calls, program builds, enumeration) and file reading stay
//! outside this crate: the library prepares exact requests for them and
//! consumes their results as values.

pub mod enums;
pub mod error;
pub mod handles;
pub mod mapped_mem;
pub mod program;
pub mod standard;
pub mod structs;
pub mod text;
pub mod version;
