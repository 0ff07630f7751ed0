//! An in-memory reference backend: the storage contract realised exactly,
//! with every operation total. It is the executable model of the contract
//! and the backend the test suite runs against.

use vstd::prelude::*;
use vstd::slice::slice_to_vec;

use crate::errors::StorageAdapterError;
use crate::storage::{concat_chunks, lemma_concat_push, StorageAdapter};

verus! {

/// The artifacts held by a map from keys to byte vectors, as a map from
/// keys to byte sequences.
pub open spec fn bytes_of(m: Map<Seq<char>, Vec<u8>>) -> Map<Seq<char>, Seq<u8>> {
    m.map_values(|v: Vec<u8>| v@)
}

proof fn lemma_bytes_of_insert(m: Map<Seq<char>, Vec<u8>>, k: Seq<char>, v: Vec<u8>)
    ensures
        bytes_of(m.insert(k, v)) == bytes_of(m).insert(k, v@),
{
    assert(bytes_of(m.insert(k, v)) =~= bytes_of(m).insert(k, v@));
}

/// A backend that holds every artifact in process memory, keyed by its
/// storage key. No operation of it ever fails.
pub struct MemStorageAdapter {
    objects: vstd::hash_map::StringHashMap<Vec<u8>>,
}

impl MemStorageAdapter {
    /// An empty backend: no key has been written yet.
    pub fn new() -> (r: Self)
        ensures
            r.store() == Map::<Seq<char>, Seq<u8>>::empty(),
    {
        let r = MemStorageAdapter { objects: vstd::hash_map::StringHashMap::new() };
        proof {
            assert(r.store() =~= Map::<Seq<char>, Seq<u8>>::empty());
        }
        r
    }
}

impl StorageAdapter for MemStorageAdapter {
    closed spec fn store(&self) -> Map<Seq<char>, Seq<u8>> {
        bytes_of(self.objects@)
    }

    fn get(&self, path: &String) -> (r: Result<Vec<u8>, StorageAdapterError>)
        ensures
            r is Ok <==> self.store().contains_key(path@),
    {
        match self.objects.get(path.as_str()) {
            Some(v) => Ok(slice_to_vec(v.as_slice())),
            None => Err(StorageAdapterError::Unknown),
        }
    }

    fn exists_at(&self, path: &String) -> (r: Result<bool, StorageAdapterError>)
        ensures
            r matches Ok(b) && b == self.store().contains_key(path@),
    {
        Ok(self.objects.contains_key(path.as_str()))
    }

    fn upload(&mut self, path: String, artifact: Vec<u8>) -> (r: Result<
        (),
        StorageAdapterError,
    >)
        ensures
            r is Ok,
    {
        proof {
            lemma_bytes_of_insert(self.objects@, path@, artifact);
        }
        self.objects.insert(path, artifact);
        Ok(())
    }

    fn upload_(&mut self, path: String, artifact: Vec<Vec<u8>>) -> (r: Result<
        (),
        StorageAdapterError,
    >)
        ensures
            r is Ok,
    {
        let ghost chunks: Seq<Seq<u8>> = artifact.deep_view();
        let mut buf: Vec<u8> = Vec::new();
        let mut i: usize = 0;
        proof {
            assert(buf@ =~= concat_chunks(chunks.take(0)));
        }
        while i < artifact.len()
            invariant
                i <= artifact.len(),
                chunks == artifact.deep_view(),
                chunks.len() == artifact.len(),
                buf@ == concat_chunks(chunks.take(i as int)),
            decreases artifact.len() - i,
        {
            let mut chunk_copy = slice_to_vec(artifact[i].as_slice());
            proof {
                assert(chunks[i as int] =~= artifact[i as int]@);
                lemma_concat_push(chunks.take(i as int), chunks[i as int]);
                assert(chunks.take(i as int).push(chunks[i as int]) =~= chunks.take(i + 1));
            }
            buf.append(&mut chunk_copy);
            i = i + 1;
        }
        proof {
            assert(chunks.take(artifact.len() as int) =~= chunks);
            lemma_bytes_of_insert(self.objects@, path@, buf);
        }
        self.objects.insert(path, buf);
        Ok(())
    }
}

} // verus!
