use osrs_prices::policy::{should_refresh_mappings, should_refresh_prices, RefreshPolicy, TimeSpan};

#[test]
fn missing_mapping_cache_always_refreshes() {
    assert!(should_refresh_mappings(false, false));
    assert!(should_refresh_mappings(false, true));
}

#[test]
fn cached_mappings_are_kept_unless_forced() {
    assert!(!should_refresh_mappings(true, false));
    assert!(should_refresh_mappings(true, true));
}

#[test]
fn presence_policy_ignores_age() {
    let policy = RefreshPolicy::PresenceOnly;
    let young = TimeSpan::from_secs(0);
    let ancient = TimeSpan::from_secs(u64::MAX);
    assert!(!policy.should_refresh(true, &young, false));
    assert!(!policy.should_refresh(true, &ancient, false));
    assert!(policy.should_refresh(false, &young, false));
    assert!(policy.should_refresh(false, &ancient, true));
    assert!(!policy.needs_age(true, false));
}

#[test]
fn prices_within_ttl_are_kept() {
    let ttl = TimeSpan::from_secs(300);
    assert!(!should_refresh_prices(true, &TimeSpan::from_secs(0), &ttl, false));
    assert!(!should_refresh_prices(true, &TimeSpan::from_secs(299), &ttl, false));
    assert!(!should_refresh_prices(true, &TimeSpan::from_secs(300), &ttl, false));
}

#[test]
fn prices_past_ttl_are_refreshed() {
    let ttl = TimeSpan::from_secs(300);
    assert!(should_refresh_prices(true, &TimeSpan { secs: 300, nanos: 1 }, &ttl, false));
    assert!(should_refresh_prices(true, &TimeSpan::from_secs(301), &ttl, false));
    assert!(should_refresh_prices(true, &TimeSpan::from_secs(u64::MAX), &ttl, false));
}

#[test]
fn missing_price_cache_always_refreshes() {
    let ttl = TimeSpan::from_secs(300);
    assert!(should_refresh_prices(false, &TimeSpan::from_secs(0), &ttl, false));
    assert!(should_refresh_prices(false, &TimeSpan::from_secs(0), &ttl, true));
}

#[test]
fn force_overrides_both_policies() {
    let ttl = TimeSpan::from_secs(u64::MAX);
    let age = TimeSpan::from_secs(0);
    assert!(should_refresh_mappings(true, true));
    assert!(should_refresh_mappings(false, true));
    assert!(should_refresh_prices(true, &age, &ttl, true));
    assert!(should_refresh_prices(false, &age, &ttl, true));
    assert!(RefreshPolicy::PresenceOnly.should_refresh(true, &age, true));
    assert!(RefreshPolicy::Ttl(ttl).should_refresh(true, &age, true));
}

#[test]
fn endless_ttl_never_goes_stale() {
    let ttl = TimeSpan::from_secs(u64::MAX);
    assert!(!should_refresh_prices(true, &TimeSpan::from_secs(u64::MAX), &ttl, false));
    assert!(!should_refresh_prices(true, &TimeSpan::from_secs(1_000_000), &ttl, false));
}

#[test]
fn ttl_policy_needs_age_only_for_an_unforced_cached_load() {
    let policy = RefreshPolicy::Ttl(TimeSpan::from_secs(300));
    assert!(policy.needs_age(true, false));
    assert!(!policy.needs_age(false, false));
    assert!(!policy.needs_age(true, true));
    assert!(!policy.needs_age(false, true));
}

#[test]
fn spans_compare_by_total_nanoseconds() {
    let one_second = TimeSpan::from_secs(1);
    assert_eq!(one_second.secs, 1);
    assert_eq!(one_second.nanos, 0);
    let as_nanos = TimeSpan { secs: 0, nanos: 1_000_000_000 };
    assert!(!one_second.exceeds(&as_nanos));
    assert!(!as_nanos.exceeds(&one_second));
    assert!(TimeSpan { secs: 0, nanos: 1_000_000_001 }.exceeds(&one_second));
    assert!(one_second.exceeds(&TimeSpan { secs: 0, nanos: 999_999_999 }));
    assert!(TimeSpan { secs: u64::MAX, nanos: u32::MAX }.exceeds(&TimeSpan::from_secs(u64::MAX)));
}
