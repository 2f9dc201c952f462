//! Extraction of 2D slices from a 3D stack of signed 16-bit samples, and
//! their export as independent baseline TIFF images: a bounds-checked,
//! zero-copy volume view, two slice serializers — the host's byte order
//! through a generic image writer, and a hand-assembled explicit
//! big-endian file — and a fail-fast export pipeline whose outputs,
//! naming and progress trace are specified frame by frame.

pub mod encoding;
pub mod error;
pub mod export;
pub mod volume;
