use vstd::prelude::*;

use crate::device::StageKind;

verus! {

/// Why geometry was refused before anything was uploaded.
#[derive(PartialEq, Eq, Structural, Clone, Copy, Debug)]
pub enum LayoutError {
    /// The attribute layout is not valid (see `VertexLayout::valid`).
    InvalidAttributes,
    /// The index count is not a multiple of 3.
    PartialTriangle,
    /// The vertex words do not split into whole records.
    PartialVertex,
    /// A byte size or count does not fit what the device takes.
    TooLarge,
}

/// An unrecoverable failure while setting up device resources.
#[derive(Clone, Debug)]
pub enum SetupError {
    /// A shader stage failed to compile; `diagnostic` is the device's log.
    Compile { stage: StageKind, diagnostic: String },
    /// The program failed to link; `diagnostic` is the device's log.
    Link { diagnostic: String },
    /// An image could not be decoded; `diagnostic` is the decoder's message.
    AssetLoad { diagnostic: String },
    /// Decoded pixels do not match their dimensions, or the dimensions do not
    /// fit what the device takes.
    ImageSize,
    /// The device handed back the zero handle for a new object.
    DeviceAllocation,
    /// Geometry was refused before upload.
    Layout(LayoutError),
}

} // verus!
