//! Shape and marshaling layer of a speech analysis/resynthesis pipeline.
//!
//! The numerical routines (pitch, envelope and aperiodicity estimation,
//! coding and synthesis) are an opaque native backend. This library decides
//! everything the backend trusts its caller with: how many frames and bins
//! each buffer holds, whether the matrices handed in are rectangular and
//! agree with each other, and how output buffers are laid out before a call.
pub mod lemmas;
pub mod query;
pub mod shape;
pub mod stage;
