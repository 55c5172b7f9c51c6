//! The operations that a front end calls: listing the releases for a device
//! and downloading the asset that fits it.

pub mod github;
