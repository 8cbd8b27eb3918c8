use review_auth::config::Config;
use review_auth::policy::{Policy, DEFAULT_EXPIRES_IN};
use review_auth::review::Review;

#[test]
fn default_policy_is_one_hour_and_no_secret() {
    let policy = Policy::default();
    assert_eq!(DEFAULT_EXPIRES_IN, 3600);
    assert_eq!(policy.expires_in(), 3600);
    assert!(policy.secret().is_empty());
}

#[test]
fn policy_keeps_lifetime_and_secret() {
    let policy = Policy::new(90, vec![1, 2, 3]);
    assert_eq!(policy.expires_in(), 90);
    assert_eq!(policy.secret(), &vec![1, 2, 3]);
}

#[test]
fn config_hands_its_directories_to_the_service() {
    let config = Config::new("/var/lib/review/data".to_string(), "/var/lib/review/backup".to_string());
    let review = config.to_review();
    assert_eq!(review.data_dir(), "/var/lib/review/data");
    assert_eq!(review.backup_dir(), "/var/lib/review/backup");
    assert_eq!(review.policy().expires_in(), 3600);
    assert!(review.policy().secret().is_empty());
}

#[test]
fn service_takes_another_policy_and_keeps_its_directories() {
    let review = Review::new("data", "backup").with_policy(Policy::new(5, b"s".to_vec()));
    assert_eq!(review.data_dir(), "data");
    assert_eq!(review.backup_dir(), "backup");
    assert_eq!(review.policy().expires_in(), 5);
    assert_eq!(review.policy().secret(), &b"s".to_vec());
}
