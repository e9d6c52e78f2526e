//! A minimal single-shot container launcher, verified where its logic is pure.
//!
//! The launch pipeline is: parse an image reference, fetch a registry token,
//! fetch the image manifest, fetch and decode each filesystem layer, assemble
//! the layers into a root filesystem in manifest order, stage the target
//! executable inside it, and plan the isolation steps (root switch, working
//! directory reset, device scaffolding, process-ID namespace) that a host
//! program performs before executing the command.

pub mod errors;
pub mod image;
pub mod isolation;
pub mod registry;
pub mod rootfs;
