//! Batch JPEG resizer: decodes images to RGB, downsizes each to fit within a
//! bounding dimension while preserving aspect ratio (resampling with a
//! windowed-sinc filter), carries the source's application metadata segments
//! through re-encoding, and isolates per-item failures so one bad input never
//! aborts a batch. Images already within the bound pass through unresized.

pub mod batch;
pub mod codec;
pub mod encode;
pub mod geometry;
pub mod metadata;
pub mod pipeline;
