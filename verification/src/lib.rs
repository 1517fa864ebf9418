//! A small real-time rendering harness, with its decision core verified:
//! tessellation of primitive shapes into indexed triangles, the byte layout
//! of the vertex variants the pipeline consumes, the frame renderer's
//! resize, mesh-toggle and surface-recovery state machine, and the decoding
//! half of the texture loader.  The host owns the window, the GPU device and
//! every GPU call, and acts on the values this library hands it.

pub mod renderer;
pub mod shapes;
pub mod texture;
pub mod vertex;
