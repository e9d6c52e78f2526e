//! The registry client's pure half: the manifest and layer data model and the
//! exact URLs, scope and media type that the anonymous-pull protocol uses.
//! The HTTPS calls themselves live outside the library; they are handed these
//! strings and hand back plain bytes.

use crate::image::Image;
use vstd::prelude::*;
use vstd::string::*;

verus! {

/// One filesystem layer, identified by its content digest. The digest is used
/// only to build the blob URL; the downloaded bytes are not verified against
/// it (a known, accepted gap).
#[derive(Debug)]
pub struct Layer {
    pub digest: String,
}

/// The image manifest: the ordered layers that compose the image. The order
/// is semantically significant: it is the stacking order for rootfs assembly.
#[derive(Debug)]
pub struct Manifest {
    pub layers: Vec<Layer>,
}

/// The token endpoint queried for an anonymous pull token.
pub fn auth_endpoint() -> (r: &'static str)
    ensures
        r@ == "https://auth.docker.io/token"@,
{
    "https://auth.docker.io/token"
}

/// The fixed service identifier sent with every token request.
pub fn auth_service() -> (r: &'static str)
    ensures
        r@ == "registry.docker.io"@,
{
    "registry.docker.io"
}

/// The Accept header value requesting the registry's v2 single-platform
/// manifest schema (also sent, unchanged, on blob requests).
pub fn manifest_media_type() -> (r: &'static str)
    ensures
        r@ == "application/vnd.docker.distribution.manifest.v2+json"@,
{
    "application/vnd.docker.distribution.manifest.v2+json"
}

/// The scope string for a token request on `name`: push is requested but
/// never exercised.
pub open spec fn spec_pull_scope(name: Seq<char>) -> Seq<char> {
    "repository:library/"@ + name + ":push,pull"@
}

/// The manifest URL for a repository and tag.
pub open spec fn spec_manifest_url(name: Seq<char>, reference: Seq<char>) -> Seq<char> {
    "https://registry.hub.docker.com/v2/library/"@ + name + "/manifests/"@ + reference
}

/// The blob URL for a repository and layer digest.
pub open spec fn spec_blob_url(name: Seq<char>, digest: Seq<char>) -> Seq<char> {
    "https://registry.hub.docker.com/v2/library/"@ + name + "/blobs/"@ + digest
}

/// Builds the token-request scope for the named repository.
pub fn pull_scope(name: &str) -> (r: String)
    ensures
        r@ == spec_pull_scope(name@),
{
    let mut url = "repository:library/".to_owned();
    url.append(name);
    url.append(":push,pull");
    proof {
        assert(url@ =~= spec_pull_scope(name@));
    }
    url
}

/// Builds the manifest URL for an image reference.
pub fn manifest_url(image: &Image) -> (r: String)
    ensures
        r@ == spec_manifest_url(image.name@, image.reference@),
{
    let mut url = "https://registry.hub.docker.com/v2/library/".to_owned();
    url.append(image.name.as_str());
    url.append("/manifests/");
    url.append(image.reference.as_str());
    proof {
        assert(url@ =~= spec_manifest_url(image.name@, image.reference@));
    }
    url
}

/// Builds the blob URL for one layer of an image.
pub fn blob_url(image: &Image, layer: &Layer) -> (r: String)
    ensures
        r@ == spec_blob_url(image.name@, layer.digest@),
{
    let mut url = "https://registry.hub.docker.com/v2/library/".to_owned();
    url.append(image.name.as_str());
    url.append("/blobs/");
    url.append(layer.digest.as_str());
    proof {
        assert(url@ =~= spec_blob_url(image.name@, layer.digest@));
    }
    url
}

} // verus!
