use dns_ingress::metrics::{Metrics, Timer};
use dns_ingress::utils::backoff::BackoffCounter;

#[test]
fn records_are_counted() {
    let mut metrics = Metrics::new();
    metrics.record_request(true, 10, 20, 1_000_000);
    metrics.record_request(false, 1, 2, 500_000);
    metrics.record_sni_rewrite();
    metrics.record_upstream_error();
    let counters = metrics.snapshot();
    assert_eq!(counters.total_requests, 2);
    assert_eq!(counters.successful_requests, 1);
    assert_eq!(counters.failed_requests, 1);
    assert_eq!(counters.bytes_received, 11);
    assert_eq!(counters.bytes_sent, 22);
    assert_eq!(counters.sni_rewrites, 1);
    assert_eq!(counters.upstream_errors, 1);
    assert_eq!(counters.processing_duration_micros, 1_500_000);
}

#[test]
fn records_may_come_in_any_order() {
    let mut first = Metrics::new();
    first.record_request(true, 10, 20, 7);
    first.record_request(false, 1, 2, 9);
    let mut second = Metrics::default();
    second.record_request(false, 1, 2, 9);
    second.record_request(true, 10, 20, 7);
    assert_eq!(
        format!("{:?}", first.snapshot()),
        format!("{:?}", second.snapshot())
    );
}

#[test]
fn durations_beyond_a_counter_are_cut() {
    let mut metrics = Metrics::new();
    metrics.record_request(true, 0, 0, u128::MAX);
    assert_eq!(metrics.snapshot().processing_duration_micros, u64::MAX);
}

#[test]
fn the_text_format_lists_every_counter() {
    let mut metrics = Metrics::new();
    metrics.record_request(true, 10, 20, 1_500_000);
    assert_eq!(
        metrics.prometheus("1.500000"),
        "# TYPE dns_ingress_requests_total counter\n\
         dns_ingress_requests_total 1\n\
         # TYPE dns_ingress_requests_success_total counter\n\
         dns_ingress_requests_success_total 1\n\
         # TYPE dns_ingress_requests_failed_total counter\n\
         dns_ingress_requests_failed_total 0\n\
         # TYPE dns_ingress_bytes_received_total counter\n\
         dns_ingress_bytes_received_total 10\n\
         # TYPE dns_ingress_bytes_sent_total counter\n\
         dns_ingress_bytes_sent_total 20\n\
         # TYPE dns_ingress_sni_rewrites_total counter\n\
         dns_ingress_sni_rewrites_total 0\n\
         # TYPE dns_ingress_upstream_errors_total counter\n\
         dns_ingress_upstream_errors_total 0\n\
         # TYPE dns_ingress_request_duration_seconds summary\n\
         dns_ingress_request_duration_seconds_sum 1.500000\n\
         dns_ingress_request_duration_seconds_count 1\n"
    );
}

#[test]
fn timers_measure_from_their_start() {
    let timer = Timer::start(100);
    assert_eq!(timer.elapsed(350), 250);
    assert_eq!(timer.elapsed(50), 0);
}

#[test]
fn delays_double_up_to_the_limit() {
    let mut backoff = BackoffCounter::new();
    let delays: Vec<u64> = (0..8).map(|_| backoff.next_delay(100, 5000)).collect();
    assert_eq!(delays, vec![100, 200, 400, 800, 1600, 3200, 5000, 5000]);
}

#[test]
fn counters_follow_any_run_of_records() {
    let mut metrics = Metrics::new();
    for n in 1..=10u64 {
        metrics.record_request(n % 3 == 0, n, 2 * n, u128::from(n) * 100);
        if n % 2 == 0 {
            metrics.record_sni_rewrite();
        }
        if n % 5 == 0 {
            metrics.record_upstream_error();
        }
    }
    let counters = metrics.snapshot();
    assert_eq!(counters.total_requests, 10);
    assert_eq!((counters.successful_requests, counters.failed_requests), (3, 7));
    assert_eq!((counters.bytes_received, counters.bytes_sent), (55, 110));
    assert_eq!((counters.sni_rewrites, counters.upstream_errors), (5, 2));
    assert_eq!(counters.processing_duration_micros, 5500);
}

#[test]
fn byte_counters_start_over_beyond_their_range() {
    let mut metrics = Metrics::new();
    metrics.record_request(true, u64::MAX, 1, 0);
    metrics.record_request(true, 2, 1, 0);
    assert_eq!(metrics.snapshot().bytes_received, 1);
}
