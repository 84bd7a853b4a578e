//! Verified core of a per-frame 2D mesh material render pipeline.
//!
//! The crate turns declarative material descriptions attached to 2D mesh
//! entities into correctly ordered draw items: instance extraction filtered by
//! visibility, material preparation with retry, pipeline specialization with a
//! process-lifetime memo cache, and render-phase queuing into opaque bins and
//! a back-to-front sorted transparent list.
//!
//! The entity store, GPU device, asset loader and render-graph executor are
//! external collaborators; the host hands their data in as plain values and
//! performs the GPU and I/O work itself.

pub mod extract;
pub mod key;
pub mod material;
pub mod phase;
pub mod pipeline;
pub mod prepare;
pub mod queue;
pub mod table;
