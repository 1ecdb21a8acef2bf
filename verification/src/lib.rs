//! PNG images with ICC colour profiles: a plain-value image model, a codec that
//! checks what it wrote, and the transfer of a profile from one image to another.

pub mod binding;
pub mod chunk;
pub mod codec;
pub mod crc;
pub mod error;
pub mod model;
pub mod pattern;
pub mod profile;

pub use crate::profile::apply_default_icc_profile;
pub use crate::profile::apply_icc_profile;
pub use crate::profile::extract_icc_profile;
pub use crate::profile::get_default_icc_profile;
pub use crate::profile::transfer_icc_profile;
