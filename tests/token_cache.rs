use mergeable_server::token_cache::{RefreshDecision, TokenCache};

#[test]
fn first_request_refreshes_and_others_wait() {
    let mut cache = TokenCache::new();
    assert_eq!(cache.begin_refresh(7, 100), RefreshDecision::Refresh);
    assert_eq!(cache.begin_refresh(7, 101), RefreshDecision::WaitForRefresh);
    assert_eq!(cache.begin_refresh(8, 101), RefreshDecision::Refresh);
    cache.complete_refresh(7, b"ghs_token".to_vec(), 200);
    assert_eq!(cache.begin_refresh(7, 150), RefreshDecision::UseCached);
    assert_eq!(cache.token(7, 150), Some(&b"ghs_token".to_vec()));
}

#[test]
fn expired_token_is_refreshed_once() {
    let mut cache = TokenCache::new();
    assert_eq!(cache.begin_refresh(1, 0), RefreshDecision::Refresh);
    cache.complete_refresh(1, b"old".to_vec(), 10);
    assert_eq!(cache.token(1, 9), Some(&b"old".to_vec()));
    assert_eq!(cache.token(1, 10), None);
    assert_eq!(cache.begin_refresh(1, 10), RefreshDecision::Refresh);
    assert_eq!(cache.begin_refresh(1, 11), RefreshDecision::WaitForRefresh);
    cache.complete_refresh(1, b"new".to_vec(), 20);
    assert_eq!(cache.token(1, 11), Some(&b"new".to_vec()));
}

#[test]
fn abandoned_refresh_lets_the_next_request_retry() {
    let mut cache = TokenCache::new();
    assert_eq!(cache.begin_refresh(3, 5), RefreshDecision::Refresh);
    cache.abandon_refresh(3);
    assert_eq!(cache.token(3, 5), None);
    assert_eq!(cache.begin_refresh(3, 6), RefreshDecision::Refresh);
}
