//! The storage contract: the capability set every backend must satisfy,
//! stated over a model of the backend as a map from storage keys to byte
//! sequences, together with the laws that follow from it.

use vstd::prelude::*;

use crate::errors::StorageAdapterError;

verus! {

/// The bytes an artifact holds once a streamed write of the given chunks
/// completes: the chunks joined in arrival order.
pub open spec fn concat_chunks(chunks: Seq<Seq<u8>>) -> Seq<u8>
    decreases chunks.len(),
{
    if chunks.len() == 0 {
        Seq::empty()
    } else {
        concat_chunks(chunks.drop_last()) + chunks.last()
    }
}

pub proof fn lemma_concat_single(p: Seq<u8>)
    ensures
        concat_chunks(seq![p]) == p,
{
    let s = seq![p];
    assert(s.len() == 1);
    assert(s.drop_last() =~= Seq::<Seq<u8>>::empty());
    assert(s.last() == p);
    assert(concat_chunks(s) == concat_chunks(s.drop_last()) + s.last());
    assert(concat_chunks(s.drop_last()) == Seq::<u8>::empty());
    assert(Seq::<u8>::empty() + p =~= p);
}

pub proof fn lemma_concat_push(chunks: Seq<Seq<u8>>, c: Seq<u8>)
    ensures
        concat_chunks(chunks.push(c)) == concat_chunks(chunks) + c,
{
    assert(chunks.push(c).drop_last() =~= chunks);
    assert(chunks.push(c).last() == c);
}

/// Joining two chunk sequences and concatenating is the same as
/// concatenating each and joining the payloads.
pub proof fn lemma_concat_append(left: Seq<Seq<u8>>, right: Seq<Seq<u8>>)
    ensures
        concat_chunks(left + right) == concat_chunks(left) + concat_chunks(right),
    decreases right.len(),
{
    if right.len() == 0 {
        assert(left + right =~= left);
        assert(concat_chunks(left) + concat_chunks(right) =~= concat_chunks(left));
    } else {
        assert((left + right).drop_last() =~= left + right.drop_last());
        lemma_concat_append(left, right.drop_last());
        assert(concat_chunks(left) + concat_chunks(right.drop_last()) + right.last() =~= concat_chunks(
            left,
        ) + (concat_chunks(right.drop_last()) + right.last()));
    }
}

/// The contract every storage backend satisfies. A backend is modelled as a
/// map from storage keys to artifact contents; an operation may fail with
/// the flat backend error, but whatever it reports must be true of the model.
pub trait StorageAdapter: Sized {
    /// The artifacts the backend currently holds, by storage key.
    spec fn store(&self) -> Map<Seq<char>, Seq<u8>>;

    /// Returns the full contents of the artifact at `path`. Absence is
    /// reported as an error, indistinguishable from a backend failure.
    fn get(&self, path: &String) -> (r: Result<Vec<u8>, StorageAdapterError>)
        ensures
            r matches Ok(b) ==> self.store().contains_key(path@) && b@ == self.store()[path@],
            !self.store().contains_key(path@) ==> r is Err,
    ;

    /// Reports whether an artifact is currently retrievable at `path`.
    /// A missing artifact is a valid `false` result, not an error.
    fn exists_at(&self, path: &String) -> (r: Result<bool, StorageAdapterError>)
        ensures
            r matches Ok(b) ==> b == self.store().contains_key(path@),
    ;

    /// Buffered write: stores `artifact` at `path`, replacing any previous
    /// contents entirely. On failure the previous contents stay visible.
    fn upload(&mut self, path: String, artifact: Vec<u8>) -> (r: Result<
        (),
        StorageAdapterError,
    >)
        ensures
            r is Ok ==> final(self).store() == old(self).store().insert(path@, artifact@),
            r is Err ==> final(self).store() == old(self).store(),
    ;

    /// Streamed write: stores the chunks joined in arrival order at `path`,
    /// with the same overwrite contract as the buffered write.
    fn upload_(&mut self, path: String, artifact: Vec<Vec<u8>>) -> (r: Result<
        (),
        StorageAdapterError,
    >)
        ensures
            r is Ok ==> final(self).store() == old(self).store().insert(
                path@,
                concat_chunks(artifact.deep_view()),
            ),
            r is Err ==> final(self).store() == old(self).store(),
    ;
}

/// Round trip: after a completed write of payload `p` to key `k`, the store
/// holds `k` and a read of `k` yields exactly `p`.
pub proof fn lemma_round_trip(store: Map<Seq<char>, Seq<u8>>, k: Seq<char>, p: Seq<u8>)
    ensures
        store.insert(k, p).contains_key(k),
        store.insert(k, p)[k] == p,
{
}

/// Existence reflects writes: a key is absent from a store to which nothing
/// was ever written, and present immediately after a completed buffered or
/// streamed write to it.
pub proof fn lemma_exists_reflects_writes(
    store: Map<Seq<char>, Seq<u8>>,
    k: Seq<char>,
    p: Seq<u8>,
    chunks: Seq<Seq<u8>>,
)
    ensures
        !Map::<Seq<char>, Seq<u8>>::empty().contains_key(k),
        store.insert(k, p).contains_key(k),
        store.insert(k, concat_chunks(chunks)).contains_key(k),
{
}

/// Overwrite semantics: writing `p2` to an already-written key replaces the
/// earlier payload entirely; the store is as if only `p2` had been written.
pub proof fn lemma_overwrite(store: Map<Seq<char>, Seq<u8>>, k: Seq<char>, p1: Seq<u8>, p2: Seq<u8>)
    ensures
        store.insert(k, p1).insert(k, p2) == store.insert(k, p2),
        store.insert(k, p1).insert(k, p2)[k] == p2,
{
    assert(store.insert(k, p1).insert(k, p2) =~= store.insert(k, p2));
}

/// Streamed equivalence: a streamed write of any chunk sequence leaves the
/// store exactly as a buffered write of the concatenated payload does.
pub proof fn lemma_streamed_matches_buffered(
    store: Map<Seq<char>, Seq<u8>>,
    k: Seq<char>,
    chunks: Seq<Seq<u8>>,
    payload: Seq<u8>,
)
    requires
        payload == concat_chunks(chunks),
    ensures
        store.insert(k, concat_chunks(chunks)) == store.insert(k, payload),
{
}

} // verus!
