//! The rootfs assembler: each layer blob is decompressed as a gzip stream,
//! read as a tar archive, and its entries applied in archive order to the
//! root filesystem, later entries overwriting earlier ones at the same path
//! (standard layered-filesystem semantics, no union bookkeeping).

use crate::errors::LaunchError;
use vstd::prelude::*;

verus! {

/// One archive entry: a path inside the rootfs and the bytes stored there.
#[derive(Debug)]
pub struct TarEntry {
    pub path: String,
    pub data: Vec<u8>,
}

impl View for TarEntry {
    type V = (Seq<char>, Seq<u8>);

    open spec fn view(&self) -> Self::V {
        (self.path@, self.data@)
    }
}

/// The entries of a layer as plain (path, content) pairs.
pub open spec fn entries_view(es: Seq<TarEntry>) -> Seq<(Seq<char>, Seq<u8>)> {
    es.map_values(|e: TarEntry| e@)
}

/// Applies entries to a rootfs model in order: each entry stores its content
/// at its path, overwriting whatever was there.
pub open spec fn apply_entries(
    m: Map<Seq<char>, Seq<u8>>,
    es: Seq<(Seq<char>, Seq<u8>)>,
) -> Map<Seq<char>, Seq<u8>>
    decreases es.len(),
{
    if es.len() == 0 {
        m
    } else {
        apply_entries(m, es.drop_last()).insert(es.last().0, es.last().1)
    }
}

/// The content that the last entry at path `p` carries, if any entry does.
pub open spec fn last_content_of(es: Seq<(Seq<char>, Seq<u8>)>, p: Seq<char>) -> Option<Seq<u8>>
    decreases es.len(),
{
    if es.len() == 0 {
        None
    } else if es.last().0 == p {
        Some(es.last().1)
    } else {
        last_content_of(es.drop_last(), p)
    }
}

/// Applying entries leaves at `p` exactly what the last entry at `p` wrote,
/// whatever was there before.
pub proof fn lemma_apply_entries_last(
    m: Map<Seq<char>, Seq<u8>>,
    es: Seq<(Seq<char>, Seq<u8>)>,
    p: Seq<char>,
)
    requires
        last_content_of(es, p) is Some,
    ensures
        apply_entries(m, es).contains_key(p),
        apply_entries(m, es)[p] == last_content_of(es, p)->Some_0,
    decreases es.len(),
{
    if es.last().0 == p {
    } else {
        lemma_apply_entries_last(m, es.drop_last(), p);
    }
}

/// Rootfs assembly is order-sensitive: when a later layer carries a file at a
/// path, the assembled rootfs holds that layer's (last) content at the path —
/// never an earlier layer's, whatever the earlier layer wrote there.
pub proof fn lemma_layer_order(
    m: Map<Seq<char>, Seq<u8>>,
    layer1: Seq<(Seq<char>, Seq<u8>)>,
    layer2: Seq<(Seq<char>, Seq<u8>)>,
    p: Seq<char>,
)
    requires
        last_content_of(layer2, p) is Some,
    ensures
        apply_entries(apply_entries(m, layer1), layer2).contains_key(p),
        apply_entries(apply_entries(m, layer1), layer2)[p] == last_content_of(layer2, p)->Some_0,
        (last_content_of(layer1, p) is Some && last_content_of(layer1, p)
            != last_content_of(layer2, p)) ==> apply_entries(
            apply_entries(m, layer1),
            layer2,
        )[p] != last_content_of(layer1, p)->Some_0,
{
    lemma_apply_entries_last(apply_entries(m, layer1), layer2, p);
}

/// A layer's entry pairs split around concatenation.
proof fn lemma_entries_view_append(a: Seq<TarEntry>, b: Seq<TarEntry>)
    ensures
        entries_view(a + b) == entries_view(a) + entries_view(b),
{
    assert(entries_view(a + b) =~~= entries_view(a) + entries_view(b));
}

/// Applying a concatenation of entry lists applies the first list, then the
/// second on top of the result.
proof fn lemma_apply_entries_append(
    m: Map<Seq<char>, Seq<u8>>,
    a: Seq<(Seq<char>, Seq<u8>)>,
    b: Seq<(Seq<char>, Seq<u8>)>,
)
    ensures
        apply_entries(m, a + b) == apply_entries(apply_entries(m, a), b),
    decreases b.len(),
{
    if b.len() == 0 {
        assert(a + b =~= a);
    } else {
        lemma_apply_entries_append(m, a, b.drop_last());
        assert((a + b).drop_last() =~= a + b.drop_last());
        assert((a + b).last() == b.last());
    }
}

/// A path is present after applying entries to an empty rootfs exactly when
/// some entry wrote it, and then it holds the last such entry's content.
pub proof fn lemma_map_of_last(es: Seq<(Seq<char>, Seq<u8>)>, p: Seq<char>)
    ensures
        apply_entries(Map::empty(), es).contains_key(p) <==> last_content_of(es, p) is Some,
        last_content_of(es, p) matches Some(c) ==> apply_entries(Map::empty(), es)[p] == c,
    decreases es.len(),
{
    if es.len() == 0 {
    } else {
        lemma_map_of_last(es.drop_last(), p);
    }
}

/// What gzip decompression yields for a byte stream: the decompressed bytes,
/// or nothing when the stream does not begin with a valid gzip member. A
/// function of the input bytes alone.
pub uninterp spec fn gunzip_of(b: Seq<u8>) -> Option<Seq<u8>>;

/// What a tar archive holds: each entry's path and content, in archive order,
/// or nothing when the bytes are not a well-formed archive. A function of the
/// archive bytes alone. A directory arrives as an entry with empty content
/// and a trailing separator on its path.
pub uninterp spec fn tar_entries_of(b: Seq<u8>) -> Option<Seq<(Seq<char>, Seq<u8>)>>;

/// Relies on flate2::read::GzDecoder, driven by std::io::Read::read_to_end:
/// decompresses the leading gzip member of an in-memory stream (bytes after
/// the member are ignored), failing on bytes that do not start with one.
#[verifier::external_body]
fn gunzip(b: &[u8]) -> (r: Option<Vec<u8>>)
    ensures
        r is Some <==> gunzip_of(b@) is Some,
        r matches Some(v) ==> gunzip_of(b@) == Some(v@),
{
    let mut decoder = flate2::read::GzDecoder::new(b);
    let mut out: Vec<u8> = Vec::new();
    match std::io::Read::read_to_end(&mut decoder, &mut out) {
        Ok(_) => Some(out),
        Err(_) => None,
    }
}

/// Relies on tar::Archive over an in-memory reader: entries() walks the
/// archive's entries in order; each entry's path and content are read in
/// full. Fails on bytes that are not a well-formed archive.
#[verifier::external_body]
fn read_tar_entries(b: &[u8]) -> (r: Option<Vec<TarEntry>>)
    ensures
        r is Some <==> tar_entries_of(b@) is Some,
        r matches Some(es) ==> tar_entries_of(b@) == Some(entries_view(es@)),
{
    let mut archive = tar::Archive::new(b);
    let mut out: Vec<TarEntry> = Vec::new();
    for entry in archive.entries().ok()? {
        let mut entry = entry.ok()?;
        let path = entry.path().ok()?.to_string_lossy().into_owned();
        let mut data: Vec<u8> = Vec::new();
        std::io::Read::read_to_end(&mut entry, &mut data).ok()?;
        out.push(TarEntry { path, data });
    }
    Some(out)
}

/// Decodes one layer blob: decompresses it as a gzip stream and reads the
/// result as a tar archive, yielding the entries in archive order. It
/// succeeds exactly when the blob is a valid compressed archive — a gzip
/// stream whose decompressed bytes form a tar archive — and every failure is
/// the one unpack error.
pub fn decode_layer(blob: &[u8]) -> (r: Result<Vec<TarEntry>, LaunchError>)
    ensures
        r is Ok <==> gunzip_of(blob@) is Some && tar_entries_of(gunzip_of(blob@)->Some_0)
            is Some,
        r matches Ok(es) ==> Some(entries_view(es@)) == tar_entries_of(
            gunzip_of(blob@)->Some_0,
        ),
        r matches Err(e) ==> e == LaunchError::UnpackError,
{
    match gunzip(blob) {
        Some(raw) => match read_tar_entries(raw.as_slice()) {
            Some(es) => Ok(es),
            None => Err(LaunchError::UnpackError),
        },
        None => Err(LaunchError::UnpackError),
    }
}

/// The assembled root filesystem, modelled as the entries applied so far;
/// viewed as a map from path to content in which the last write wins.
pub struct Rootfs {
    pub files: Vec<TarEntry>,
}

impl View for Rootfs {
    type V = Map<Seq<char>, Seq<u8>>;

    open spec fn view(&self) -> Self::V {
        apply_entries(Map::empty(), entries_view(self.files@))
    }
}

impl Rootfs {
    /// A fresh, empty root directory: created before any layer is applied, so
    /// a manifest with zero layers still yields a (trivial) rootfs.
    pub fn new() -> (r: Rootfs)
        ensures
            r@ == Map::<Seq<char>, Seq<u8>>::empty(),
            r.files@.len() == 0,
    {
        let r = Rootfs { files: Vec::new() };
        proof {
            assert(entries_view(r.files@) =~= Seq::<(Seq<char>, Seq<u8>)>::empty());
        }
        r
    }

    /// Stores one entry's content at its path, overwriting any earlier write.
    pub fn apply_entry(&mut self, e: TarEntry)
        ensures
            final(self)@ == old(self)@.insert(e.path@, e.data@),
    {
        let ghost before = entries_view(self.files@);
        let ghost ev = e@;
        self.files.push(e);
        proof {
            assert(entries_view(self.files@) =~= before.push(ev));
            assert(entries_view(self.files@).drop_last() =~= before);
        }
    }

    /// Applies a whole layer's entries in archive order: later layers applied
    /// through repeated calls overwrite earlier ones path by path.
    pub fn apply_layer(&mut self, layer: Vec<TarEntry>)
        ensures
            final(self)@ == apply_entries(old(self)@, entries_view(layer@)),
    {
        let ghost before = self.files@;
        let ghost added = layer@;
        let mut incoming = layer;
        self.files.append(&mut incoming);
        proof {
            lemma_entries_view_append(before, added);
            lemma_apply_entries_append(Map::empty(), entries_view(before), entries_view(added));
        }
    }

    /// Looks the path up in the assembled rootfs: the content returned is the
    /// one the last write at that path stored, and nothing is returned for a
    /// path no layer wrote.
    pub fn lookup(&self, path: &String) -> (r: Option<&Vec<u8>>)
        ensures
            r is Some <==> self@.contains_key(path@),
            r matches Some(d) ==> self@.contains_key(path@) && d@ == self@[path@],
    {
        let ghost es = entries_view(self.files@);
        let mut idx: usize = self.files.len();
        proof {
            assert(es.take(idx as int) =~= es);
        }
        while idx > 0
            invariant
                0 <= idx <= self.files.len(),
                es == entries_view(self.files@),
                last_content_of(es, path@) == last_content_of(es.take(idx as int), path@),
            decreases idx,
        {
            idx = idx - 1;
            let e = &self.files[idx];
            proof {
                assert(es.take(idx as int + 1).last() == es[idx as int]);
                assert(es.take(idx as int + 1).drop_last() =~= es.take(idx as int));
            }
            if e.path == *path {
                proof {
                    assert(es[idx as int] == (e.path@, e.data@));
                    assert(last_content_of(es.take(idx as int + 1), path@) == Some(e.data@));
                    assert(last_content_of(es, path@) == Some(e.data@));
                    lemma_map_of_last(es, path@);
                }
                return Some(&e.data);
            }
        }
        proof {
            assert(es.take(0) =~= Seq::<(Seq<char>, Seq<u8>)>::empty());
            assert(last_content_of(es, path@) is None);
            lemma_map_of_last(es, path@);
        }
        None
    }
}

} // verus!
