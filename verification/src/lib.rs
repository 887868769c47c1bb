//! Hand detection on top of an external inference runtime.
//!
//! The library holds the verified half of the pipeline: the geometric types,
//! the image/pixel model, and the post-processing step that turns the
//! detector's raw score and box outputs into pixel-space rectangles. The
//! surrounding orchestration (model download and caching, graph loading,
//! session execution, image decoding) is unverifiable I/O and lives outside
//! the library, handing plain values in and taking plain values back.

pub mod detect;
pub mod utils;
