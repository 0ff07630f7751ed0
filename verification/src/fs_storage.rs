//! The filesystem backend's configuration and path logic. The backend
//! stores each artifact as a plain file at `<root>/<teamId>/<artifactId>`;
//! missing parent directories are provisioned silently rather than treated
//! as errors. The file reads and writes themselves live outside the
//! library; everything here is the path derivation and the decisions.

use vstd::prelude::*;
use vstd::string::*;

use crate::errors::StorageAdapterError;

verus! {

/// The storage key with its last path component removed: the directory a
/// key's file lives in. A key without a slash has the root as its parent.
pub open spec fn parent_of(key: Seq<char>) -> Seq<char>
    decreases key.len(),
{
    if key.len() == 0 {
        Seq::empty()
    } else if key.last() == '/' {
        key.drop_last()
    } else {
        parent_of(key.drop_last())
    }
}

/// Computes the directory part of a storage key, as popping the last
/// component of the corresponding path does.
pub fn parent_dir(key: &String) -> (r: String)
    ensures
        r@ == parent_of(key@),
{
    let mut i: usize = key.as_str().unicode_len();
    proof {
        assert(key@.take(i as int) =~= key@);
    }
    while i > 0
        invariant
            i <= key@.len(),
            parent_of(key@.take(i as int)) == parent_of(key@),
        decreases i,
    {
        proof {
            assert(key@.take(i as int).last() == key@[i - 1]);
            assert(key@.take(i as int).drop_last() =~= key@.take(i - 1));
        }
        if key.as_str().get_char(i - 1) == '/' {
            let r = key.as_str().substring_char(0, i - 1).to_owned();
            proof {
                assert(r@ =~= key@.take(i - 1));
            }
            return r;
        }
        i = i - 1;
    }
    proof {
        assert(key@.take(0) =~= Seq::<char>::empty());
    }
    String::new()
}

/// The directory a storage key's file lives in is exactly the team's
/// directory: as long as the artifact identifier holds no slash, popping
/// the last component of the derived key gives back the team identifier.
pub proof fn lemma_parent_of_storage_key(team_id: Seq<char>, artifact_id: Seq<char>)
    requires
        !artifact_id.contains('/'),
    ensures
        parent_of(crate::cache::storage_key(team_id, artifact_id)) == team_id,
    decreases artifact_id.len(),
{
    let k = crate::cache::storage_key(team_id, artifact_id);
    if artifact_id.len() == 0 {
        assert(k.len() == team_id.len() + 1);
        assert(k.last() == '/');
        assert(k.drop_last() =~= team_id);
    } else {
        assert(k.last() == artifact_id.last());
        assert(k.drop_last() =~= crate::cache::storage_key(team_id, artifact_id.drop_last()));
        assert forall|i: int|
            0 <= i < artifact_id.drop_last().len() implies #[trigger] artifact_id.drop_last()[i]
            != '/' by {
            assert(artifact_id.drop_last()[i] == artifact_id[i]);
        }
        assert(!artifact_id.drop_last().contains('/'));
        lemma_parent_of_storage_key(team_id, artifact_id.drop_last());
    }
}

/// A backend that stores each artifact as a file under a root directory.
pub struct FsStorageAdapter {
    pub bucket: String,
}

/// Builds an [`FsStorageAdapter`]; the root directory must be supplied
/// before `build` is called.
pub struct FsStorageAdapterBuilder {
    pub bucket: Option<String>,
}

impl FsStorageAdapter {
    pub fn builder() -> (r: FsStorageAdapterBuilder)
        ensures
            r.bucket is None,
    {
        FsStorageAdapterBuilder { bucket: None }
    }

    /// The filesystem location of the object stored at `key`: the root
    /// directory, a slash, the key.
    pub fn object_path(&self, key: &String) -> (r: String)
        ensures
            r@ == self.bucket@ + seq!['/'] + key@,
    {
        let mut path = self.bucket.clone();
        path.append("/");
        path.append(key.as_str());
        proof {
            reveal_strlit("/");
            assert("/"@ =~= seq!['/']);
        }
        path
    }
}

/// Maps a metadata lookup's outcome to the existence pre-check's result: a
/// file that is present passes, a missing one is the flat backend error.
pub fn presence_to_result(present: bool) -> (r: Result<(), StorageAdapterError>)
    ensures
        r is Ok <==> present,
{
    if present {
        Ok(())
    } else {
        Err(StorageAdapterError::Unknown)
    }
}

impl FsStorageAdapterBuilder {
    /// Fails fast when no root directory was supplied.
    pub fn build(&self) -> (r: FsStorageAdapter)
        requires
            self.bucket is Some,
        ensures
            r.bucket@ == self.bucket->Some_0@,
    {
        match &self.bucket {
            Some(bucket) => FsStorageAdapter { bucket: bucket.clone() },
            None => FsStorageAdapter { bucket: String::new() },
        }
    }

    pub fn with_bucket(&mut self, bucket: String) -> (r: &mut Self)
        ensures
            *r == (FsStorageAdapterBuilder { bucket: Some(bucket) }),
            *final(self) == *final(r),
    {
        self.bucket = Some(bucket);
        self
    }
}

} // verus!
