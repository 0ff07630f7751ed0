//! The HTTP gateway's decision logic: query-parameter extraction, the
//! required-parameter rule (`slug` or `teamId`, `slug` checked first), and
//! the mapping of core outcomes onto status codes. The four route handlers
//! are here, stated against any storage backend; the socket handling and
//! routing table live outside the library.

use vstd::prelude::*;
use vstd::string::*;

use crate::cache::{storage_key, TurborepoCore};
use crate::errors::TurborepoError;
use crate::storage::{concat_chunks, StorageAdapter};

verus! {

/// The (name, value) pairs a query string decodes to.
pub uninterp spec fn query_pairs_of(raw: Seq<char>) -> Seq<(Seq<char>, Seq<char>)>;

/// Relies on url::form_urlencoded::parse: the decoded (name, value) pairs
/// depend on the query text alone, and an empty query decodes to no pairs.
#[verifier::external_body]
fn parse_query(raw: &str) -> (r: Vec<(String, String)>)
    ensures
        r.deep_view() == query_pairs_of(raw@),
        raw@.len() == 0 ==> r.deep_view() =~= Seq::<(Seq<char>, Seq<char>)>::empty(),
{
    url::form_urlencoded::parse(raw.as_bytes()).into_owned().collect()
}

/// The value a parameter resolves to: that of its last occurrence, as
/// collecting the pairs into a map keyed by name leaves it.
pub open spec fn lookup_spec(pairs: Seq<(Seq<char>, Seq<char>)>, name: Seq<char>) -> Option<
    Seq<char>,
>
    decreases pairs.len(),
{
    if pairs.len() == 0 {
        None::<Seq<char>>
    } else if pairs.last().0 == name {
        Some(pairs.last().1)
    } else {
        lookup_spec(pairs.drop_last(), name)
    }
}

/// Finds the value of the named query parameter, the last occurrence
/// winning as in a map built from the pairs.
pub fn lookup_query(pairs: &Vec<(String, String)>, name: &String) -> (r: Option<String>)
    ensures
        r.deep_view() == lookup_spec(pairs.deep_view(), name@),
{
    let ghost all: Seq<(Seq<char>, Seq<char>)> = pairs.deep_view();
    let mut found: Option<String> = None;
    let mut i: usize = 0;
    proof {
        assert(all.take(0) =~= Seq::<(Seq<char>, Seq<char>)>::empty());
    }
    while i < pairs.len()
        invariant
            i <= pairs.len(),
            all == pairs.deep_view(),
            all.len() == pairs.len(),
            found.deep_view() == lookup_spec(all.take(i as int), name@),
        decreases pairs.len() - i,
    {
        let p = &pairs[i];
        proof {
            assert(all[i as int] == (p.0@, p.1@));
            assert(all.take(i + 1).last() == all[i as int]);
            assert(all.take(i + 1).drop_last() =~= all.take(i as int));
        }
        if p.0 == *name {
            found = Some(p.1.clone());
        }
        i = i + 1;
    }
    proof {
        assert(all.take(pairs.len() as int) =~= all);
    }
    found
}

/// The team a request addresses: the `slug` parameter when present,
/// otherwise `teamId`; none means the request is malformed.
pub open spec fn team_of(pairs: Seq<(Seq<char>, Seq<char>)>) -> Option<Seq<char>> {
    if lookup_spec(pairs, "slug"@) is Some {
        lookup_spec(pairs, "slug"@)
    } else {
        lookup_spec(pairs, "teamId"@)
    }
}

/// Resolves the team a request addresses, checking `slug` before `teamId`.
pub fn resolve_team(pairs: &Vec<(String, String)>) -> (r: Option<String>)
    ensures
        r.deep_view() == team_of(pairs.deep_view()),
{
    let slug_name = String::from_str("slug");
    match lookup_query(pairs, &slug_name) {
        Some(v) => Some(v),
        None => {
            let team_name = String::from_str("teamId");
            lookup_query(pairs, &team_name)
        },
    }
}

/// What the gateway answers: a status code and a body.
pub struct HttpResponse {
    pub status: u16,
    pub body: Vec<u8>,
}

/// The answer to a request that names neither `slug` nor `teamId`.
pub fn bad_request() -> (r: HttpResponse)
    ensures
        r.status == 400,
        r.body@ =~= Seq::<u8>::empty(),
{
    HttpResponse { status: 400, body: Vec::new() }
}

/// The answer to an unexpected internal fault: the diagnostic text is
/// echoed to the caller.
pub fn internal_error(detail: Vec<u8>) -> (r: HttpResponse)
    ensures
        r.status == 500,
        r.body@ == detail@,
{
    HttpResponse { status: 500, body: detail }
}

/// Maps the existence answer to the HEAD response: found is 200, absent is
/// 404, the body empty either way.
pub fn head_response(found: bool) -> (r: HttpResponse)
    ensures
        r.status == (if found {
            200u16
        } else {
            404u16
        }),
        r.body@ =~= Seq::<u8>::empty(),
{
    if found {
        HttpResponse { status: 200, body: Vec::new() }
    } else {
        HttpResponse { status: 404, body: Vec::new() }
    }
}

/// Maps the core's read outcome to the GET response: success carries the
/// artifact bytes, every failure — absence as well as a backend fault —
/// collapses to 404 with an empty body.
pub fn get_response(outcome: Result<Vec<u8>, TurborepoError>) -> (r: HttpResponse)
    ensures
        outcome matches Ok(b) ==> r.status == 200 && r.body@ == b@,
        outcome is Err ==> r.status == 404 && r.body@ =~= Seq::<u8>::empty(),
{
    match outcome {
        Ok(artifact) => HttpResponse { status: 200, body: artifact },
        Err(_) => HttpResponse { status: 404, body: Vec::new() },
    }
}

/// HEAD of an artifact: 400 without a team parameter; otherwise existence
/// as the status, with an empty body either way. A backend failure is
/// handed back for the router's fault handler to answer.
pub fn head<S: StorageAdapter>(
    core: &TurborepoCore<S>,
    artifact_id: &String,
    raw_query: &str,
) -> (r: Result<HttpResponse, TurborepoError>)
    ensures
        ({
            let team = team_of(query_pairs_of(raw_query@));
            &&& team is None ==> (r matches Ok(resp) && resp.status == 400 && resp.body@
                =~= Seq::<u8>::empty())
            &&& team matches Some(t) ==> (r matches Ok(resp) ==> resp.status == (
            if core.store().contains_key(storage_key(t, artifact_id@)) {
                200u16
            } else {
                404u16
            }) && resp.body@ =~= Seq::<u8>::empty())
        }),
{
    let pairs = parse_query(raw_query);
    match resolve_team(&pairs) {
        None => Ok(bad_request()),
        Some(team_id) => {
            match core.exists_cached_artifact(artifact_id, &team_id) {
                Ok(found) => Ok(head_response(found)),
                Err(e) => Err(e),
            }
        },
    }
}

/// GET of an artifact: 400 without a team parameter; 200 with the stored
/// bytes on success; every failure, a missing artifact included, is 404
/// with an empty body.
pub fn get<S: StorageAdapter>(
    core: &TurborepoCore<S>,
    artifact_id: &String,
    raw_query: &str,
) -> (r: HttpResponse)
    ensures
        ({
            let team = team_of(query_pairs_of(raw_query@));
            &&& team is None ==> r.status == 400 && r.body@ =~= Seq::<u8>::empty()
            &&& team matches Some(t) ==> {
                let k = storage_key(t, artifact_id@);
                &&& r.status == 200 || r.status == 404
                &&& r.status == 200 ==> core.store().contains_key(k) && r.body@
                    == core.store()[k]
                &&& !core.store().contains_key(k) ==> r.status == 404
                &&& r.status == 404 ==> r.body@ =~= Seq::<u8>::empty()
            }
        }),
{
    let pairs = parse_query(raw_query);
    match resolve_team(&pairs) {
        None => bad_request(),
        Some(team_id) => get_response(core.get_cached_artifact(artifact_id.clone(), team_id)),
    }
}

/// PUT of an artifact: 400 without a team parameter; otherwise the chunks
/// are written through the streamed path and success is 200 with an empty
/// body. A backend failure is handed back and leaves the store unchanged.
pub fn put<S: StorageAdapter>(
    core: &mut TurborepoCore<S>,
    artifact_id: &String,
    raw_query: &str,
    artifact: Vec<Vec<u8>>,
) -> (r: Result<HttpResponse, TurborepoError>)
    ensures
        ({
            let team = team_of(query_pairs_of(raw_query@));
            &&& team is None ==> (r matches Ok(resp) && resp.status == 400 && resp.body@
                =~= Seq::<u8>::empty() && final(core).store() == old(core).store())
            &&& team matches Some(t) ==> {
                &&& r matches Ok(resp) ==> resp.status == 200 && resp.body@
                    =~= Seq::<u8>::empty() && final(core).store() == old(core).store().insert(
                    storage_key(t, artifact_id@),
                    concat_chunks(artifact.deep_view()),
                )
                &&& r is Err ==> final(core).store() == old(core).store()
            }
        }),
{
    let pairs = parse_query(raw_query);
    match resolve_team(&pairs) {
        None => Ok(bad_request()),
        Some(team_id) => {
            match core.create_cached_artifact(artifact_id.clone(), team_id, artifact) {
                Ok(()) => Ok(HttpResponse { status: 200, body: Vec::new() }),
                Err(e) => Err(e),
            }
        },
    }
}

/// POST of telemetry events: 400 without a team parameter; otherwise 200.
/// The body is read in full and discarded — the endpoint persists nothing.
pub fn events(raw_query: &str, _body: Vec<u8>) -> (r: HttpResponse)
    ensures
        ({
            let team = team_of(query_pairs_of(raw_query@));
            &&& team is None ==> r.status == 400
            &&& team is Some ==> r.status == 200
            &&& r.body@ =~= Seq::<u8>::empty()
        }),
{
    let pairs = parse_query(raw_query);
    match resolve_team(&pairs) {
        None => bad_request(),
        Some(_team_id) => HttpResponse { status: 200, body: Vec::new() },
    }
}

/// The gateway: the artifact cache core it serves and the access token it
/// was configured with (accepted as configuration, not enforced).
pub struct TurborepoServer<S: StorageAdapter> {
    pub core: TurborepoCore<S>,
    pub token: String,
}

/// Builds a [`TurborepoServer`]; the core and the token must both be
/// supplied before `build` is called.
pub struct TurborepoServerBuilder<S: StorageAdapter> {
    pub core: Option<TurborepoCore<S>>,
    pub token: Option<String>,
}

impl<S: StorageAdapter> TurborepoServer<S> {
    pub fn builder() -> (r: TurborepoServerBuilder<S>)
        ensures
            r.core is None,
            r.token is None,
    {
        TurborepoServerBuilder { core: None, token: None }
    }
}

impl<S: StorageAdapter> TurborepoServerBuilder<S> {
    /// Fails fast when the core or the token is missing.
    pub fn build(self) -> (r: TurborepoServer<S>)
        requires
            self.core is Some,
            self.token is Some,
        ensures
            r.core == self.core->Some_0,
            r.token == self.token->Some_0,
    {
        match (self.core, self.token) {
            (Some(core), Some(token)) => TurborepoServer { core, token },
            _ => vstd::pervasive::unreached(),
        }
    }

    pub fn with_core(&mut self, core: TurborepoCore<S>) -> (r: &mut Self)
        ensures
            *r == (TurborepoServerBuilder { core: Some(core), token: old(self).token }),
            *final(self) == *final(r),
    {
        self.core = Some(core);
        self
    }

    pub fn with_token(&mut self, token: String) -> (r: &mut Self)
        ensures
            *r == (TurborepoServerBuilder { core: old(self).core, token: Some(token) }),
            *final(self) == *final(r),
    {
        self.token = Some(token);
        self
    }
}

} // verus!
