use deadpool::auth::{AuthTokenFetcher, AuthTokenState, PgAuthConfig};
use deadpool::aws::{AwsRdsSignerConfig, ManagerConfig, DEFAULT_EXPIRES_IN_MS};

#[test]
fn builder_defaults_to_fifteen_minutes() {
    let config = AwsRdsSignerConfig::builder().build();
    assert_eq!(config.expires_in(), 900_000);
    assert_eq!(config.expires_in(), DEFAULT_EXPIRES_IN_MS);
    assert_eq!(config.region(), &None);
}

#[test]
fn builder_keeps_explicit_settings() {
    let config = AwsRdsSignerConfig::builder()
        .region(String::from("us-east-1"))
        .expires_in(300_000)
        .build();
    assert_eq!(config.region(), &Some(String::from("us-east-1")));
    assert_eq!(config.expires_in(), 300_000);
}

#[test]
fn empty_region_clears_it() {
    let config = AwsRdsSignerConfig::builder()
        .region(String::from("eu-west-1"))
        .region(String::new())
        .build();
    assert_eq!(config.region(), &None);
}

#[test]
fn default_config_is_empty() {
    let config = AwsRdsSignerConfig::default();
    assert_eq!(config.region(), &None);
    assert_eq!(config.expires_in(), 0);
}

#[test]
fn rds_signer_enabled_iff_configured() {
    let off = ManagerConfig::default();
    assert!(!off.is_rds_signer_enabled());
    let on = ManagerConfig {
        aws_rds_signer_config: Some(AwsRdsSignerConfig::builder().build()),
    };
    assert!(on.is_rds_signer_enabled());
}

#[test]
fn fetch_needed_before_first_fetch_and_after_expiry() {
    let mut state = AuthTokenState::new(1000);
    // No token yet: a fetch is always needed.
    assert!(state.is_fetch_needed(0));
    assert!(state.is_fetch_needed(u64::MAX));
    state.apply_fetch(Some(b"token-1".to_vec()), 5000);
    // Fresh until the lifetime has fully elapsed.
    assert!(!state.is_fetch_needed(5000));
    assert!(!state.is_fetch_needed(5999));
    assert!(state.is_fetch_needed(6000));
    assert!(state.is_fetch_needed(9000));
    // A clock reading before the fetch counts as no elapsed time.
    assert!(!state.is_fetch_needed(4000));
}

#[test]
fn failed_fetch_keeps_the_stale_token() {
    let mut state = AuthTokenState::new(1000);
    state.apply_fetch(Some(b"token-1".to_vec()), 1000);
    state.apply_fetch(None, 3000);
    assert_eq!(state.token(), &b"token-1".to_vec());
    assert_eq!(state.last_token_fetch_ms, Some(1000));
    assert!(state.is_fetch_needed(3000));
    state.apply_fetch(Some(b"token-2".to_vec()), 3000);
    assert_eq!(state.token(), &b"token-2".to_vec());
    assert!(!state.is_fetch_needed(3500));
}

#[test]
fn for_config_picks_the_fetcher() {
    let pg = PgAuthConfig {
        password: Some(b"hunter".to_vec()),
    };
    let plain = AuthTokenFetcher::for_config(&ManagerConfig::default(), &pg);
    assert!(!plain.needs_fetch(0));
    assert_eq!(plain.token_bytes(), &b"hunter".to_vec());

    let with_signer = ManagerConfig {
        aws_rds_signer_config: Some(
            AwsRdsSignerConfig::builder().expires_in(2000).build(),
        ),
    };
    let mut rds = AuthTokenFetcher::for_config(&with_signer, &pg);
    assert!(rds.needs_fetch(0));
    assert_eq!(rds.token_bytes(), &Vec::new());
    rds.apply_fetch(Some(b"iam-token".to_vec()), 100);
    assert_eq!(rds.token_bytes(), &b"iam-token".to_vec());
    assert!(!rds.needs_fetch(100));
    assert!(rds.needs_fetch(2100));
}

#[test]
fn missing_password_is_an_empty_token() {
    let pg = PgAuthConfig { password: None };
    let fetcher = AuthTokenFetcher::default(&pg);
    assert_eq!(fetcher.token_bytes(), &Vec::new());
    // Applying a fetch outcome to the static fetcher is a no-op.
    let mut fetcher = fetcher;
    fetcher.apply_fetch(Some(b"ignored".to_vec()), 7);
    assert_eq!(fetcher.token_bytes(), &Vec::new());
}

#[test]
fn default_pool_max_size_is_at_least_two() {
    let n = deadpool::util::get_default_pool_max_size();
    assert!(n >= 2);
}
