use turborepo_cache::cache::TurborepoCore;
use turborepo_cache::gateway::{
    bad_request, events, get, get_response, head, head_response, internal_error, lookup_query,
    put, resolve_team, HttpResponse, TurborepoServer,
};
use turborepo_cache::memory::MemStorageAdapter;

fn mem_core() -> TurborepoCore<MemStorageAdapter> {
    TurborepoCore::builder().with_storage(MemStorageAdapter::new()).build().unwrap()
}

fn pairs(entries: &[(&str, &str)]) -> Vec<(String, String)> {
    entries.iter().map(|(k, v)| (k.to_string(), v.to_string())).collect()
}

#[test]
fn missing_both_parameters_is_bad_request_on_every_route() {
    let mut core = mem_core();
    for query in ["", "foo=bar", "team=t1"] {
        let r = head(&core, &"abc".to_string(), query).unwrap();
        assert_eq!(r.status, 400);
        assert!(r.body.is_empty());

        let r = get(&core, &"abc".to_string(), query);
        assert_eq!(r.status, 400);
        assert!(r.body.is_empty());

        let r = put(&mut core, &"abc".to_string(), query, vec![b"x".to_vec()]).unwrap();
        assert_eq!(r.status, 400);
        assert!(r.body.is_empty());

        let r = events(query, b"ignored".to_vec());
        assert_eq!(r.status, 400);
        assert!(r.body.is_empty());
    }
}

#[test]
fn get_of_never_written_key_is_not_found_with_empty_body() {
    let core = mem_core();
    let r = get(&core, &"ghost".to_string(), "teamId=t");
    assert_eq!(r.status, 404);
    assert!(r.body.is_empty());
}

#[test]
fn put_then_head_then_get_scenario() {
    let mut core = mem_core();

    let r = put(&mut core, &"abc123".to_string(), "teamId=team1", vec![b"hello".to_vec()])
        .unwrap();
    assert_eq!(r.status, 200);
    assert!(r.body.is_empty());

    let r = head(&core, &"abc123".to_string(), "teamId=team1").unwrap();
    assert_eq!(r.status, 200);
    assert!(r.body.is_empty());

    let r = get(&core, &"abc123".to_string(), "teamId=team1");
    assert_eq!(r.status, 200);
    assert_eq!(r.body, b"hello".to_vec());

    let r = get(&core, &"abc123".to_string(), "teamId=team2");
    assert_eq!(r.status, 404);
    assert!(r.body.is_empty());
}

#[test]
fn put_streams_chunks_in_arrival_order() {
    let mut core = mem_core();
    put(
        &mut core,
        &"abc".to_string(),
        "teamId=t",
        vec![b"a".to_vec(), b"bc".to_vec(), b"def".to_vec()],
    )
    .unwrap();
    let r = get(&core, &"abc".to_string(), "teamId=t");
    assert_eq!(r.body, b"abcdef".to_vec());
}

#[test]
fn put_overwrites_previous_artifact() {
    let mut core = mem_core();
    put(&mut core, &"abc".to_string(), "teamId=t", vec![b"first".to_vec()]).unwrap();
    put(&mut core, &"abc".to_string(), "teamId=t", vec![b"second".to_vec()]).unwrap();
    let r = get(&core, &"abc".to_string(), "teamId=t");
    assert_eq!(r.body, b"second".to_vec());
}

#[test]
fn slug_is_checked_before_team_id() {
    let r = resolve_team(&pairs(&[("teamId", "a"), ("slug", "b")]));
    assert_eq!(r, Some("b".to_string()));
    let r = resolve_team(&pairs(&[("slug", "b"), ("teamId", "a")]));
    assert_eq!(r, Some("b".to_string()));
    let r = resolve_team(&pairs(&[("teamId", "a")]));
    assert_eq!(r, Some("a".to_string()));
    let r = resolve_team(&pairs(&[("other", "a")]));
    assert_eq!(r, None);
}

#[test]
fn last_occurrence_of_a_parameter_wins() {
    let r = lookup_query(&pairs(&[("teamId", "a"), ("teamId", "b")]), &"teamId".to_string());
    assert_eq!(r, Some("b".to_string()));
    let r = lookup_query(&pairs(&[("teamId", "a")]), &"slug".to_string());
    assert_eq!(r, None);
}

#[test]
fn query_parameters_are_percent_decoded() {
    let mut core = mem_core();
    // %74%65%61%6D%31 decodes to "team1"; the artifact must land under the
    // decoded team and be retrievable through the plain spelling.
    let r = put(
        &mut core,
        &"abc".to_string(),
        "teamId=%74%65%61%6D%31",
        vec![b"x".to_vec()],
    )
    .unwrap();
    assert_eq!(r.status, 200);
    let r = get(&core, &"abc".to_string(), "teamId=team1");
    assert_eq!(r.status, 200);
    assert_eq!(r.body, b"x".to_vec());
}

#[test]
fn events_discards_the_body() {
    let r = events("teamId=t", b"telemetry payload".to_vec());
    assert_eq!(r.status, 200);
    assert!(r.body.is_empty());
}

#[test]
fn response_constructors() {
    let r = bad_request();
    assert_eq!(r.status, 400);
    assert!(r.body.is_empty());

    let r = head_response(true);
    assert_eq!(r.status, 200);
    assert!(r.body.is_empty());
    let r = head_response(false);
    assert_eq!(r.status, 404);
    assert!(r.body.is_empty());

    let r = get_response(Ok(b"data".to_vec()));
    assert_eq!(r.status, 200);
    assert_eq!(r.body, b"data".to_vec());
    let r = get_response(Err(turborepo_cache::errors::TurborepoError::Unknown));
    assert_eq!(r.status, 404);
    assert!(r.body.is_empty());

    let r: HttpResponse = internal_error(b"Something went wrong: oops".to_vec());
    assert_eq!(r.status, 500);
    assert_eq!(r.body, b"Something went wrong: oops".to_vec());
}

#[test]
fn server_builder_carries_core_and_token() {
    let mut builder = TurborepoServer::builder();
    builder.with_token("token-123".to_string());
    builder.with_core(mem_core());
    let server = builder.build();
    assert_eq!(server.token, "token-123");
    let r = get(&server.core, &"ghost".to_string(), "teamId=t");
    assert_eq!(r.status, 404);
}
