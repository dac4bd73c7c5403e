//! The files that slicers write.

pub mod ctb;
pub mod photon;
