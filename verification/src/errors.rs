//! The launch pipeline's error taxonomy. Every failure is fatal to the whole
//! launch: there is no retry or degraded-mode continuation anywhere.

use vstd::prelude::*;

verus! {

/// One variant per pipeline stage that can fail, annotated by `message` with
/// the operation that produced it.
#[derive(Clone, Copy, Debug, PartialEq, Eq, Structural)]
pub enum LaunchError {
    /// The invocation itself was malformed.
    ArgumentError,
    /// Token retrieval or parsing failed.
    AuthError,
    /// Manifest retrieval or parsing failed.
    ManifestError,
    /// A layer blob could not be retrieved.
    LayerFetchError,
    /// A layer's bytes were not a valid compressed archive.
    UnpackError,
    /// The target executable could not be staged into the rootfs.
    FileCopyError,
    /// The root switch failed.
    ChrootError,
    /// Process-ID namespace isolation failed.
    NamespaceError,
    /// The target command could not be started or its status read.
    ExecError,
}

impl LaunchError {
    /// A human-readable description naming the operation that failed.
    pub fn message(&self) -> (r: &'static str)
        ensures
            *self is ArgumentError ==> r@ == "malformed invocation"@,
            *self is AuthError ==> r@ == "failed to obtain registry token"@,
            *self is ManifestError ==> r@ == "failed to fetch manifest"@,
            *self is LayerFetchError ==> r@ == "failed to fetch layer"@,
            *self is UnpackError ==> r@ == "failed to unpack layer"@,
            *self is FileCopyError ==> r@ == "failed to copy command into rootfs"@,
            *self is ChrootError ==> r@ == "failed to switch root"@,
            *self is NamespaceError ==> r@ == "failed to isolate pid namespace"@,
            *self is ExecError ==> r@ == "failed to run command"@,
    {
        match self {
            LaunchError::ArgumentError => "malformed invocation",
            LaunchError::AuthError => "failed to obtain registry token",
            LaunchError::ManifestError => "failed to fetch manifest",
            LaunchError::LayerFetchError => "failed to fetch layer",
            LaunchError::UnpackError => "failed to unpack layer",
            LaunchError::FileCopyError => "failed to copy command into rootfs",
            LaunchError::ChrootError => "failed to switch root",
            LaunchError::NamespaceError => "failed to isolate pid namespace",
            LaunchError::ExecError => "failed to run command",
        }
    }
}

} // verus!
