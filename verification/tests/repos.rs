use site_core::aggregate::join_results;
use site_core::error::UpstreamError;
use site_core::repo::{LanguageBytes, RepoInfo, RepoMeta};
use site_core::state::SharedState;

fn meta(name: &str) -> RepoMeta {
    RepoMeta {
        name: name.to_string(),
        description: format!("about {}", name),
        url: format!("https://example.com/{}", name),
        stars: 3,
        forks: 1,
    }
}

fn langs() -> Vec<LanguageBytes> {
    vec![
        LanguageBytes { language: "Rust".to_string(), bytes: 1000 },
        LanguageBytes { language: "HTML".to_string(), bytes: 50 },
    ]
}

#[test]
fn miss_resolves_caches_and_second_call_is_served_from_cache() {
    let mut state = SharedState::new(180, 2);
    assert!(state.cached_repo("blog", 0).is_none());
    let first: Result<RepoInfo, UpstreamError> = state.get_repo("blog", 0, Ok(meta("blog")), Ok(langs()));
    let first = first.unwrap();
    assert_eq!(first.meta, meta("blog"));
    assert_eq!(first.languages, langs());
    // An immediate second call needs no upstream outcomes at all: whatever is
    // handed in, the cached value comes back identical.
    let second = state
        .get_repo(
            "blog",
            1,
            Err(UpstreamError::UpstreamUnavailable),
            Err(UpstreamError::UpstreamUnavailable),
        )
        .unwrap();
    assert_eq!(second, first);
    assert_eq!(state.cached_repo("blog", 1), Some(&first));
}

#[test]
fn language_failure_after_metadata_success_caches_nothing() {
    let mut state = SharedState::new(180, 2);
    let r: Result<RepoInfo, UpstreamError> =
        state.get_repo("blog", 0, Ok(meta("blog")), Err(UpstreamError::UpstreamUnavailable));
    assert_eq!(r, Err(UpstreamError::UpstreamUnavailable));
    // Nothing was cached, so the next resolution is a miss again and both
    // outcomes are consulted anew.
    assert!(state.cached_repo("blog", 0).is_none());
    let retry = state
        .get_repo::<UpstreamError>("blog", 0, Ok(meta("blog")), Ok(langs()))
        .unwrap();
    assert_eq!(retry.meta, meta("blog"));
}

#[test]
fn metadata_failure_fails_the_resolution() {
    let mut state = SharedState::new(180, 2);
    let r: Result<RepoInfo, UpstreamError> =
        state.get_repo("blog", 0, Err(UpstreamError::Unauthenticated), Ok(langs()));
    assert_eq!(r, Err(UpstreamError::Unauthenticated));
    assert!(state.cached_repo("blog", 0).is_none());
}

#[test]
fn cached_repo_expires_after_the_window() {
    let mut state = SharedState::new(180, 2);
    state
        .get_repo::<UpstreamError>("blog", 0, Ok(meta("blog")), Ok(langs()))
        .unwrap();
    assert!(state.cached_repo("blog", 179).is_some());
    assert!(state.cached_repo("blog", 180).is_none());
}

#[test]
fn distinct_names_are_cached_independently() {
    let mut state = SharedState::new(180, 2);
    state
        .get_repo::<UpstreamError>("blog", 0, Ok(meta("blog")), Ok(langs()))
        .unwrap();
    assert!(state.cached_repo("notes", 0).is_none());
    state
        .get_repo::<UpstreamError>("notes", 5, Ok(meta("notes")), Ok(langs()))
        .unwrap();
    assert_eq!(state.cached_repo("blog", 10).unwrap().meta.name, "blog");
    assert_eq!(state.cached_repo("notes", 10).unwrap().meta.name, "notes");
}

#[test]
fn join_keeps_input_order_when_all_succeed() {
    let results: Vec<Result<&str, UpstreamError>> = vec![Ok("a"), Ok("b"), Ok("c")];
    assert_eq!(join_results(results), Ok(vec!["a", "b", "c"]));
}

#[test]
fn join_fails_whole_batch_on_one_failure() {
    let results: Vec<Result<&str, UpstreamError>> =
        vec![Ok("a"), Err(UpstreamError::UpstreamUnavailable), Ok("c")];
    assert_eq!(join_results(results), Err(UpstreamError::UpstreamUnavailable));
}

#[test]
fn join_returns_the_earliest_failure() {
    let results: Vec<Result<&str, UpstreamError>> = vec![
        Ok("a"),
        Err(UpstreamError::StorageUnavailable),
        Err(UpstreamError::Unauthenticated),
    ];
    assert_eq!(join_results(results), Err(UpstreamError::StorageUnavailable));
}

#[test]
fn member_that_never_completed_fails_the_batch() {
    // A member whose task never produced an outcome at all surfaces as the
    // partial-join failure, and it fails the whole batch like any other error.
    let results: Vec<Result<&str, UpstreamError>> =
        vec![Ok("a"), Err(UpstreamError::PartialJoinFailure)];
    assert_eq!(join_results(results), Err(UpstreamError::PartialJoinFailure));
}

#[test]
fn join_of_empty_batch_is_an_empty_success() {
    let results: Vec<Result<&str, UpstreamError>> = Vec::new();
    assert_eq!(join_results(results), Ok(Vec::new()));
}
