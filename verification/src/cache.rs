//! The artifact cache core: derives a backend-agnostic storage key from an
//! (artifactId, teamId) pair and delegates to the configured backend, with
//! a uniform error type.

use vstd::prelude::*;
use vstd::string::*;

use crate::errors::TurborepoError;
use crate::storage::{concat_chunks, StorageAdapter};

verus! {

/// The storage key for an artifact: the team identifier, a slash, the
/// artifact identifier. This is the only addressing concept backends see.
pub open spec fn storage_key(team_id: Seq<char>, artifact_id: Seq<char>) -> Seq<char> {
    team_id + seq!['/'] + artifact_id
}

/// Derives the storage key for an (artifact, team) pair.
pub fn artifact_path(artifact_id: &String, team_id: &String) -> (r: String)
    ensures
        r@ == storage_key(team_id@, artifact_id@),
{
    let mut key = team_id.clone();
    key.append("/");
    key.append(artifact_id.as_str());
    proof {
        reveal_strlit("/");
        assert("/"@ =~= seq!['/']);
    }
    key
}

/// Key derivation is injective: as long as artifact identifiers hold no
/// slash, two pairs that derive the same key are the same pair. In
/// particular, the same artifact identifier under two different teams lives
/// under two different keys.
pub proof fn lemma_storage_key_injective(
    t1: Seq<char>,
    a1: Seq<char>,
    t2: Seq<char>,
    a2: Seq<char>,
)
    requires
        !a1.contains('/'),
        !a2.contains('/'),
        storage_key(t1, a1) == storage_key(t2, a2),
    ensures
        t1 == t2,
        a1 == a2,
{
    let k1 = storage_key(t1, a1);
    let k2 = storage_key(t2, a2);
    assert(k1.len() == t1.len() + 1 + a1.len());
    assert(k2.len() == t2.len() + 1 + a2.len());
    if t1.len() == t2.len() {
        assert(t1 =~= k1.subrange(0, t1.len() as int));
        assert(t2 =~= k2.subrange(0, t2.len() as int));
        assert(a1 =~= k1.subrange(t1.len() as int + 1, k1.len() as int));
        assert(a2 =~= k2.subrange(t2.len() as int + 1, k2.len() as int));
    } else if t1.len() < t2.len() {
        let j = t2.len() - t1.len() - 1;
        assert(k2[t2.len() as int] == '/');
        assert(k1[t2.len() as int] == a1[j]);
        assert(a1[j] == '/');
        assert(false);
    } else {
        let j = t1.len() - t2.len() - 1;
        assert(k1[t1.len() as int] == '/');
        assert(k2[t1.len() as int] == a2[j]);
        assert(a2[j] == '/');
        assert(false);
    }
}

/// Core functionality to check existence, download and upload artifacts: a
/// thin wrapper that derives the storage key and hands the operation to the
/// backend it owns.
pub struct TurborepoCore<S: StorageAdapter> {
    storage: S,
}

/// Builds a [`TurborepoCore`]; the storage backend must be supplied before
/// `build` is called.
pub struct TurborepoCoreBuilder<S: StorageAdapter> {
    pub storage: Option<S>,
}

impl<S: StorageAdapter> TurborepoCore<S> {
    /// The artifacts the configured backend currently holds, by storage key.
    pub closed spec fn store(&self) -> Map<Seq<char>, Seq<u8>> {
        self.storage.store()
    }

    pub fn builder() -> (r: TurborepoCoreBuilder<S>)
        ensures
            r.storage is None,
    {
        TurborepoCoreBuilder { storage: None }
    }

    /// Returns the contents of the artifact stored for the pair. Absence is
    /// reported as a storage error, as is any backend failure.
    pub fn get_cached_artifact(&self, artifact_id: String, team_id: String) -> (r: Result<
        Vec<u8>,
        TurborepoError,
    >)
        ensures
            r matches Ok(b) ==> self.store().contains_key(storage_key(team_id@, artifact_id@))
                && b@ == self.store()[storage_key(team_id@, artifact_id@)],
            !self.store().contains_key(storage_key(team_id@, artifact_id@)) ==> r is Err,
            r matches Err(e) ==> e is StorageAdapter,
    {
        let path = artifact_path(&artifact_id, &team_id);
        match self.storage.get(&path) {
            Ok(b) => Ok(b),
            Err(e) => Err(TurborepoError::from(e)),
        }
    }

    /// Writes the streamed chunks as the artifact for the pair, replacing
    /// any previous contents entirely once the backend confirms the write.
    pub fn create_cached_artifact(
        &mut self,
        artifact_id: String,
        team_id: String,
        artifact: Vec<Vec<u8>>,
    ) -> (r: Result<(), TurborepoError>)
        ensures
            r is Ok ==> final(self).store() == old(self).store().insert(
                storage_key(team_id@, artifact_id@),
                concat_chunks(artifact.deep_view()),
            ),
            r is Err ==> final(self).store() == old(self).store(),
            r matches Err(e) ==> e is StorageAdapter,
    {
        let path = artifact_path(&artifact_id, &team_id);
        match self.storage.upload_(path, artifact) {
            Ok(()) => Ok(()),
            Err(e) => Err(TurborepoError::from(e)),
        }
    }

    /// Reports whether an artifact is stored for the pair.
    pub fn exists_cached_artifact(&self, artifact_id: &String, team_id: &String) -> (r: Result<
        bool,
        TurborepoError,
    >)
        ensures
            r matches Ok(b) ==> b == self.store().contains_key(
                storage_key(team_id@, artifact_id@),
            ),
            r matches Err(e) ==> e is StorageAdapter,
    {
        let path = artifact_path(artifact_id, team_id);
        match self.storage.exists_at(&path) {
            Ok(b) => Ok(b),
            Err(e) => Err(TurborepoError::from(e)),
        }
    }
}

impl<S: StorageAdapter> TurborepoCoreBuilder<S> {
    /// Fails fast when no storage backend was supplied.
    pub fn build(self) -> (r: Result<TurborepoCore<S>, TurborepoError>)
        requires
            self.storage is Some,
        ensures
            r matches Ok(c) && c.store() == self.storage->Some_0.store(),
    {
        match self.storage {
            Some(storage) => Ok(TurborepoCore { storage }),
            None => Err(TurborepoError::Unknown),
        }
    }

    pub fn with_storage(self, storage: S) -> (r: Self)
        ensures
            r.storage == Some(storage),
    {
        TurborepoCoreBuilder { storage: Some(storage) }
    }
}

} // verus!
