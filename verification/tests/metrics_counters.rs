use jirafs::metrics::Metrics;

#[test]
fn counters_start_at_zero_and_count() {
    let mut m = Metrics::new();
    assert_eq!(m.snapshot(), (0, 0, 0, 0, 0));
    m.inc_cache_hit();
    m.inc_cache_miss();
    m.inc_cache_miss();
    m.inc_stale_served();
    m.inc_api_request();
    m.inc_retry();
    assert_eq!(m.snapshot(), (1, 2, 1, 1, 1));
}

#[test]
fn counters_wrap_at_the_end_of_the_range() {
    let mut m = Metrics::new();
    m.cache_hits = u64::MAX;
    m.inc_cache_hit();
    assert_eq!(m.cache_hits, 0);
}
