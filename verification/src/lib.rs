//! Verified core of a head-pose tracking and character-grid rendering
//! pipeline.
//!
//! The library covers the numerically substantial stages of the system:
//! pixel-format conversion of raw camera frames, tensor assembly for a
//! fixed-shape inference call, confidence-thresholded decoding of the
//! inference output grid, the motion-record datagram codec, the
//! model/view/projection transform with perspective divide and screen
//! mapping, and the depth-resolving rasterizer.  Device capture, the
//! inference engine, the network socket and the terminal are external
//! collaborators; the surrounding process drives them and hands this
//! library plain values.
//!
//! Real-valued quantities (pixel coefficients, matrix entries, depths,
//! confidences) are carried as exact fixed-point integers so that every
//! arithmetic step has a precise contract.

use vstd::prelude::*;

pub mod fixed;
pub mod protocol;
pub mod color;
pub mod decode;
pub mod raster;
pub mod transform;
pub mod tensor;
pub mod data;

verus! {

/// UDP port on which pose records travel between the two processes.
pub const UDP_PORT: u16 = 4000;

/// Loopback address the tracker sends pose datagrams to.
pub const TRACKER_ADDR: &'static str = "127.0.0.1";

/// Faults that end a pipeline run.  A malformed datagram is not here:
/// it is a dropped record, reported as `None` by the protocol decoder.
#[derive(Clone, Copy, Debug, PartialEq, Eq, Structural)]
pub enum PipelineFault {
    /// No capture device was found, or the negotiated format was rejected.
    HardwareUnavailable,
    /// A read or acquire error occurred mid-run.
    StreamFault,
    /// The inference artifact was missing or had a mismatched shape.
    ModelLoadFault,
    /// A runtime failure occurred during an inference call.
    InferenceFault,
    /// The model file was missing required per-vertex attributes.
    AssetFault,
}

} // verus!
