//! Safe ownership and decision layer around the PROJ coordinate transformation engine.
//!
//! The engine itself is reached from the surrounding program; this library holds what
//! decides: the retry policy and request framing of the grid download callbacks, the
//! per-handle header cache, the option arrays handed to the engine, the checks that keep
//! interior NUL bytes away from it, and the ownership of native handles.

pub mod area;
pub mod cstring;
pub mod error;
pub mod handle;
pub mod headers;
pub mod network;
pub mod options;
pub mod request;
pub mod retry;
pub mod search_path;

pub use crate::error::{NulError, PjCreateError, ProjCreateError, ProjError, TransformError};
pub use crate::handle::{Info, Pj, Proj, ProjBuilder, ThreadContext};
pub use crate::options::{WktOptions, WktOutputAxis, WktVersion};

